use vstd::prelude::*;

verus! {

/// Upper limits on what one contract invocation may cost.
#[derive(Clone, Copy, Debug, PartialEq, Eq, Structural)]
pub struct ResourceBaseline {
    pub max_instructions: i64,
    pub max_mem_bytes: i64,
    pub max_read_entries: u32,
    pub max_write_entries: u32,
    pub max_read_bytes: u32,
    pub max_write_bytes: u32,
    pub max_fee_total: i64,
}

/// What one contract invocation was measured to cost.
#[derive(Clone, Copy, Debug, PartialEq, Eq, Structural)]
pub struct MeasuredResources {
    pub instructions: i64,
    pub mem_bytes: i64,
    pub read_entries: u32,
    pub write_entries: u32,
    pub read_bytes: u32,
    pub write_bytes: u32,
}

/// The quantities that a baseline limits.
#[derive(Clone, Copy, Debug, PartialEq, Eq, Structural)]
pub enum ResourceMetric {
    Instructions,
    MemoryBytes,
    ReadEntries,
    WriteEntries,
    ReadBytes,
    WriteBytes,
    FeeTotal,
}

/// A measured quantity that went beyond its limit.
#[derive(Clone, Debug, PartialEq, Eq)]
pub struct BaselineRegression {
    pub label: String,
    pub metric: ResourceMetric,
    pub measured: i64,
    pub limit: i64,
}

/// The first quantity, in the order instructions, memory, read entries,
/// write entries, read bytes, write bytes and fee, that goes beyond its
/// limit, with the measured value and the limit.
pub open spec fn first_regression(
    r: MeasuredResources,
    fee_total: i64,
    b: ResourceBaseline,
) -> Option<(ResourceMetric, i64, i64)> {
    if r.instructions > b.max_instructions {
        Some((ResourceMetric::Instructions, r.instructions, b.max_instructions))
    } else if r.mem_bytes > b.max_mem_bytes {
        Some((ResourceMetric::MemoryBytes, r.mem_bytes, b.max_mem_bytes))
    } else if r.read_entries > b.max_read_entries {
        Some((ResourceMetric::ReadEntries, r.read_entries as i64, b.max_read_entries as i64))
    } else if r.write_entries > b.max_write_entries {
        Some((ResourceMetric::WriteEntries, r.write_entries as i64, b.max_write_entries as i64))
    } else if r.read_bytes > b.max_read_bytes {
        Some((ResourceMetric::ReadBytes, r.read_bytes as i64, b.max_read_bytes as i64))
    } else if r.write_bytes > b.max_write_bytes {
        Some((ResourceMetric::WriteBytes, r.write_bytes as i64, b.max_write_bytes as i64))
    } else if fee_total > b.max_fee_total {
        Some((ResourceMetric::FeeTotal, fee_total, b.max_fee_total))
    } else {
        None
    }
}

/// Checks a measured invocation, labelled `label`, against its baseline and
/// reports the first quantity that went beyond its limit.
pub fn assert_within_baseline(
    label: &str,
    resources: MeasuredResources,
    fee_total: i64,
    baseline: ResourceBaseline,
) -> (r: Result<(), BaselineRegression>)
    ensures
        match first_regression(resources, fee_total, baseline) {
            None => r is Ok,
            Some((metric, measured, limit)) => r matches Err(e) && e.label@ == label@ && e.metric
                == metric && e.measured == measured && e.limit == limit,
        },
{
    let (metric, measured, limit) = if resources.instructions > baseline.max_instructions {
        (ResourceMetric::Instructions, resources.instructions, baseline.max_instructions)
    } else if resources.mem_bytes > baseline.max_mem_bytes {
        (ResourceMetric::MemoryBytes, resources.mem_bytes, baseline.max_mem_bytes)
    } else if resources.read_entries > baseline.max_read_entries {
        (
            ResourceMetric::ReadEntries,
            resources.read_entries as i64,
            baseline.max_read_entries as i64,
        )
    } else if resources.write_entries > baseline.max_write_entries {
        (
            ResourceMetric::WriteEntries,
            resources.write_entries as i64,
            baseline.max_write_entries as i64,
        )
    } else if resources.read_bytes > baseline.max_read_bytes {
        (ResourceMetric::ReadBytes, resources.read_bytes as i64, baseline.max_read_bytes as i64)
    } else if resources.write_bytes > baseline.max_write_bytes {
        (
            ResourceMetric::WriteBytes,
            resources.write_bytes as i64,
            baseline.max_write_bytes as i64,
        )
    } else if fee_total > baseline.max_fee_total {
        (ResourceMetric::FeeTotal, fee_total, baseline.max_fee_total)
    } else {
        return Ok(());
    };
    Err(BaselineRegression { label: label.to_owned(), metric, measured, limit })
}

/// The digit `d` (below ten) as text.
pub open spec fn digit_text(d: nat) -> Seq<char> {
    if d == 0 {
        "0"@
    } else if d == 1 {
        "1"@
    } else if d == 2 {
        "2"@
    } else if d == 3 {
        "3"@
    } else if d == 4 {
        "4"@
    } else if d == 5 {
        "5"@
    } else if d == 6 {
        "6"@
    } else if d == 7 {
        "7"@
    } else if d == 8 {
        "8"@
    } else {
        "9"@
    }
}

/// `n` written in decimal, without leading zeros.
pub open spec fn decimal_text(n: nat) -> Seq<char>
    decreases n,
{
    if n < 10 {
        digit_text(n)
    } else {
        decimal_text(n / 10) + digit_text(n % 10)
    }
}

/// `n` written in decimal, with a leading `-` when it is negative.
pub open spec fn signed_text(n: int) -> Seq<char> {
    if n < 0 {
        "-"@ + decimal_text((-n) as nat)
    } else {
        decimal_text(n as nat)
    }
}

/// The name of `m` in a regression message.
pub open spec fn metric_text(m: ResourceMetric) -> Seq<char> {
    match m {
        ResourceMetric::Instructions => "instruction"@,
        ResourceMetric::MemoryBytes => "memory"@,
        ResourceMetric::ReadEntries => "read-entry"@,
        ResourceMetric::WriteEntries => "write-entry"@,
        ResourceMetric::ReadBytes => "read-byte"@,
        ResourceMetric::WriteBytes => "write-byte"@,
        ResourceMetric::FeeTotal => "fee"@,
    }
}

/// The message that reports a regression: the label, the quantity, then
/// the measured value and the limit, as in
/// `create_contract instruction regression: 8000001 > 8000000`.
pub open spec fn regression_text(label: Seq<char>, m: ResourceMetric, measured: int, limit: int) -> Seq<
    char,
> {
    label + " "@ + metric_text(m) + " regression: "@ + signed_text(measured) + " > "@ + signed_text(
        limit,
    )
}

fn push_digit(s: &mut String, d: u64)
    requires
        d < 10,
    ensures
        final(s)@ == old(s)@ + digit_text(d as nat),
{
    if d == 0 {
        s.append("0");
    } else if d == 1 {
        s.append("1");
    } else if d == 2 {
        s.append("2");
    } else if d == 3 {
        s.append("3");
    } else if d == 4 {
        s.append("4");
    } else if d == 5 {
        s.append("5");
    } else if d == 6 {
        s.append("6");
    } else if d == 7 {
        s.append("7");
    } else if d == 8 {
        s.append("8");
    } else {
        s.append("9");
    }
}

fn push_decimal(s: &mut String, n: u64)
    ensures
        final(s)@ == old(s)@ + decimal_text(n as nat),
    decreases n,
{
    if n >= 10 {
        push_decimal(s, n / 10);
        push_digit(s, n % 10);
        assert(s@ =~= old(s)@ + (decimal_text((n / 10) as nat) + digit_text((n % 10) as nat)));
    } else {
        push_digit(s, n);
    }
}

fn push_signed(s: &mut String, n: i64)
    ensures
        final(s)@ == old(s)@ + signed_text(n as int),
{
    if n < 0 {
        s.append("-");
        let m: u64 = if n == i64::MIN {
            9223372036854775808u64
        } else {
            (-n) as u64
        };
        push_decimal(s, m);
        assert(s@ =~= old(s)@ + ("-"@ + decimal_text((-n) as nat)));
    } else {
        push_decimal(s, n as u64);
    }
}

impl BaselineRegression {
    /// The text that reports this regression, such as
    /// `create_contract instruction regression: 8000001 > 8000000`.
    pub fn message(&self) -> (m: String)
        ensures
            m@ == regression_text(self.label@, self.metric, self.measured as int, self.limit as int),
    {
        let mut s = self.label.clone();
        s.append(" ");
        let word = match self.metric {
            ResourceMetric::Instructions => "instruction",
            ResourceMetric::MemoryBytes => "memory",
            ResourceMetric::ReadEntries => "read-entry",
            ResourceMetric::WriteEntries => "write-entry",
            ResourceMetric::ReadBytes => "read-byte",
            ResourceMetric::WriteBytes => "write-byte",
            ResourceMetric::FeeTotal => "fee",
        };
        assert(word@ == metric_text(self.metric));
        s.append(word);
        s.append(" regression: ");
        push_signed(&mut s, self.measured);
        s.append(" > ");
        push_signed(&mut s, self.limit);
        s
    }
}

} // verus!
