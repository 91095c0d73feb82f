use vstd::prelude::*;

verus! {

/// A vector held by the Soroban host, as contract arguments arrive.
#[verifier::external_type_specification]
#[verifier::external_body]
#[verifier::reject_recursive_types(T)]
pub struct ExHostVec<T>(soroban_sdk::Vec<T>);

/// The slots of a host vector of amounts: `Some(a)` for a slot that holds
/// the amount `a`, `None` for a slot that holds a value of another type.
pub uninterp spec fn host_items(v: soroban_sdk::Vec<i128>) -> Seq<Option<i128>>;

/// `soroban_sdk::Vec::len`: the number of slots of the host vector.
#[verifier::external_body]
fn host_len(v: &soroban_sdk::Vec<i128>) -> (n: u32)
    ensures
        n == host_items(*v).len(),
{
    v.len()
}

/// `soroban_sdk::Vec::try_get`: the amount in slot `i`; `None` when the
/// slot is past the end or holds a value that is not an amount.
#[verifier::external_body]
fn host_get(v: &soroban_sdk::Vec<i128>, i: u32) -> (r: Option<i128>)
    ensures
        i < host_items(*v).len() ==> r == host_items(*v)[i as int],
        i >= host_items(*v).len() ==> r is None,
{
    match v.try_get(i) {
        Ok(Some(a)) => Some(a),
        Ok(None) => None,
        Err(_) => None,
    }
}

/// Whether every slot of a host vector holds an amount.
pub open spec fn all_amounts(items: Seq<Option<i128>>) -> bool {
    forall|i: int| 0 <= i < items.len() ==> (#[trigger] items[i]) is Some
}

/// Copies the amounts of a host vector, in order; `None` when some slot
/// holds a value that is not an amount.
pub fn amounts_from_host(v: &soroban_sdk::Vec<i128>) -> (r: Option<Vec<i128>>)
    ensures
        r is Some <==> all_amounts(host_items(*v)),
        r matches Some(a) ==> a@.len() == host_items(*v).len() && forall|i: int|
            0 <= i < a@.len() ==> host_items(*v)[i] == Some(#[trigger] a@[i]),
{
    let n = host_len(v);
    let mut out: Vec<i128> = Vec::new();
    let mut i: u32 = 0;
    while i < n
        invariant
            n == host_items(*v).len(),
            i <= n,
            out@.len() == i,
            forall|j: int| 0 <= j < i ==> host_items(*v)[j] == Some(#[trigger] out@[j]),
        decreases n - i,
    {
        match host_get(v, i) {
            Some(a) => {
                out.push(a);
            },
            None => {
                return None;
            },
        }
        i = i + 1;
    }
    proof {
        assert forall|j: int| 0 <= j < host_items(*v).len() implies (#[trigger] host_items(*v)[j]) is Some by {
            assert(host_items(*v)[j] == Some(out@[j]));
        }
    }
    Some(out)
}

} // verus!
