# escrow

Milestone escrow between a client and a freelancer, written in Verus.

- `src/types.rs` — the plain data of the protocol: statuses and their
  allowed transitions, milestones, errors, governed limits, the readiness
  checklist and report, the compile-time limits.
- `src/milestones.rs` — sums over milestones and amounts, with the lemmas
  about them, and the loops that check and total milestone lists.
- `src/model.rs` — the mathematical model: agreement and instance views,
  their consistency predicates, why each operation is refused, what each
  accepted operation turns the state into, and the per-record preservation
  lemmas.
- `src/escrow.rs` — the executable agreement records and instance state,
  and their operations, each with a contract over the model: record
  operations work on one stored record, instance operations delegate to
  them; rebuilding a state from stored parts. Every operation on a record
  names the party that authorized it and is refused with `Unauthorized`
  unless that party is the one the record requires.
- `src/host.rs` — reading amounts out of a Soroban host vector.
- `src/baseline.rs` — checking measured invocation costs against a baseline.
- `src/laws.rs` — properties of the protocol as a whole, proved over the
  model, including what the readiness report says after any sequence of
  operations.
- `app/lib.rs` — the Soroban contract: ledger storage (one record per
  agreement, the settings in instance storage), address registry, host
  authorization, conversion of host values and of refusals into contract
  errors.

## What is left out

The escrow documentation describes features that this library does not
provide (the contract it is built after does not implement them either):

- reputation credits issued once per completed agreement (the governed
  rating bounds are validated and stored, but nothing uses them yet);
- a dispute workflow: the `Disputed` status exists in the lifecycle, but no
  operation leads to it, so a consistent record is never disputed;
- a pause separate from emergency mode (`pause`, `unpause`, `is_paused`):
  emergency mode is the only switch;
- events for creation, deposits and releases;
- timeouts, storage time-to-live extension, refunds and withdrawal of
  leftover funds.
