use vstd::prelude::*;
use vstd::string::StringExecFns;

use crate::text::{decimal, percent_chars, push_decimal, push_percent};
use crate::usage::{aggregate, mean_rounded};

verus! {

/// The line that reports the mean usage of a sample.
pub open spec fn aggregate_line(s: Seq<u32>) -> Seq<char> {
    "Aggregate CPU usage: "@ + percent_chars(mean_rounded(s) as nat)
}

/// The line that reports the usage `v` of the core at index `i`; cores are
/// numbered from one.
pub open spec fn core_line(i: nat, v: u32) -> Seq<char> {
    "CPU "@ + decimal(i + 1) + ": "@ + percent_chars(v as nat)
}

/// The aggregate line followed by one line per core, in core order.
pub open spec fn display_lines(s: Seq<u32>) -> Seq<Seq<char>> {
    seq![aggregate_line(s)] + Seq::new(s.len(), |i: int| core_line(i as nat, s[i]))
}

/// A sample is displayed as exactly one aggregate line followed by exactly one
/// line per core, and each line ends with its percentage written to two decimal
/// places.
pub proof fn lemma_format_shape(s: Seq<u32>)
    ensures
        display_lines(s).len() == s.len() + 1,
        display_lines(s)[0] == aggregate_line(s),
        forall|i: int| 0 <= i < s.len() ==> #[trigger] display_lines(s)[i + 1] == core_line(i as nat, s[i]),
        forall|k: int| 0 <= k < display_lines(s).len() ==> {
            let p = percent_chars(if k == 0 { mean_rounded(s) as nat } else { s[k - 1] as nat });
            &&& #[trigger] display_lines(s)[k].len() >= p.len()
            &&& display_lines(s)[k].subrange(display_lines(s)[k].len() - p.len(), display_lines(s)[k].len() as int) == p
        },
{
    assert forall|k: int| 0 <= k < display_lines(s).len() implies {
        let p = percent_chars(if k == 0 { mean_rounded(s) as nat } else { s[k - 1] as nat });
        &&& #[trigger] display_lines(s)[k].len() >= p.len()
        &&& display_lines(s)[k].subrange(display_lines(s)[k].len() - p.len(), display_lines(s)[k].len() as int) == p
    } by {
        let line = display_lines(s)[k];
        let p = percent_chars(if k == 0 { mean_rounded(s) as nat } else { s[k - 1] as nat });
        if k == 0 {
            assert(line == "Aggregate CPU usage: "@ + p);
        } else {
            assert(line == "CPU "@ + decimal(k as nat) + ": "@ + p);
        }
        assert(line.subrange(line.len() - p.len(), line.len() as int) =~= p);
    }
}

/// Formats the line that reports the mean usage of a sample.
pub fn aggregate_text(sample: &Vec<u32>) -> (r: String)
    ensures
        r@ == aggregate_line(sample@),
{
    let mut out = String::from_str("Aggregate CPU usage: ");
    push_percent(&mut out, aggregate(sample));
    out
}

/// Formats the line that reports the usage of one core, given its index.
pub fn core_text(index: usize, usage: u32) -> (r: String)
    requires
        index < usize::MAX,
    ensures
        r@ == core_line(index as nat, usage),
{
    let mut out = String::from_str("CPU ");
    push_decimal(&mut out, (index + 1) as u64);
    out.append(": ");
    push_percent(&mut out, usage);
    out
}

/// Formats a sample for display: the aggregate line first, then one line per
/// core.
pub fn format(sample: &Vec<u32>) -> (r: Vec<String>)
    ensures
        r@.len() == sample@.len() + 1,
        forall|k: int| 0 <= k < r@.len() ==> #[trigger] r@[k]@ == display_lines(sample@)[k],
{
    let n: usize = sample.len();
    let mut lines: Vec<String> = Vec::new();
    lines.push(aggregate_text(sample));
    let mut i: usize = 0;
    while i < n
        invariant
            n == sample@.len(),
            i <= n,
            lines@.len() == i + 1,
            forall|k: int| 0 <= k < lines@.len() ==> #[trigger] lines@[k]@
                == display_lines(sample@)[k],
        decreases n - i,
    {
        lines.push(core_text(i, sample[i]));
        i = i + 1;
    }
    lines
}

} // verus!
