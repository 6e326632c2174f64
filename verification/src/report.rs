//! Rendering of one cycle's results into the plain-text report that is sent
//! as the notification body.
//!
//! Every absent timing is displayed as `0`, which is a lossy display choice:
//! a rendered `0` does not distinguish "not measured" from "measured as zero
//! milliseconds". A `Down` entry with no recorded message is displayed with a
//! generic placeholder.

use vstd::prelude::*;
use vstd::string::StringExecFns;
use crate::probe::{HealthCheckResult, Status};
use crate::runner::HealthCycleResults;
use crate::text::{spec_dec, u128_to_string};

verus! {

/// A timing as displayed: the measured value, or `0` when absent.
pub open spec fn spec_ms(o: Option<u128>) -> int {
    match o {
        Option::Some(v) => v as int,
        Option::None => 0,
    }
}

/// The error text as displayed: the recorded message, or a placeholder.
pub open spec fn spec_error_text(o: Option<String>) -> Seq<char> {
    match o {
        Option::Some(m) => m@,
        Option::None => "Unknown error"@,
    }
}

/// The report section for one target: its URL, its status, and either the
/// three timings (for `Up`) or the error message (for `Down`).
pub open spec fn spec_entry_text(e: (String, HealthCheckResult)) -> Seq<char> {
    match e.1.status {
        Status::Up => "URL: "@ + e.0@ + "\n  Status: UP\n"@ + "  DNS & Request Time: "@
            + spec_dec(spec_ms(e.1.dns_time_ms)) + " ms\n"@ + "  Total Response Time: "@
            + spec_dec(spec_ms(e.1.response_time_ms)) + " ms\n"@ + "  Body Read Time: "@
            + spec_dec(spec_ms(e.1.body_time_ms)) + " ms\n"@ + "\n"@,
        Status::Down => "URL: "@ + e.0@ + "\n  Status: DOWN\n"@ + "  Error: "@ + spec_error_text(
            e.1.error,
        ) + "\n"@ + "\n"@,
    }
}

/// The per-target sections, in entry order.
pub open spec fn spec_entries_text(s: Seq<(String, HealthCheckResult)>) -> Seq<char>
    decreases s.len(),
{
    if s.len() == 0 {
        Seq::<char>::empty()
    } else {
        spec_entries_text(s.drop_last()) + spec_entry_text(s.last())
    }
}

/// How many entries are `Up`.
pub open spec fn spec_count_up(s: Seq<(String, HealthCheckResult)>) -> int
    decreases s.len(),
{
    if s.len() == 0 {
        0
    } else {
        spec_count_up(s.drop_last()) + if s.last().1.status is Up {
            1int
        } else {
            0int
        }
    }
}

/// How many entries are `Down`.
pub open spec fn spec_count_down(s: Seq<(String, HealthCheckResult)>) -> int
    decreases s.len(),
{
    if s.len() == 0 {
        0
    } else {
        spec_count_down(s.drop_last()) + if s.last().1.status is Down {
            1int
        } else {
            0int
        }
    }
}

/// The trailing summary: how many targets were checked, and how many of them
/// were up and down.
pub open spec fn spec_summary_text(checked: int, up: int, down: int) -> Seq<char> {
    "\nSummary:\n  Total Websites Checked: "@ + spec_dec(checked) + "\n  Total UP: "@ + spec_dec(
        up,
    ) + "\n  Total DOWN: "@ + spec_dec(down) + "\n\n"@
}

/// The whole report for one cycle's results.
pub open spec fn spec_report(s: Seq<(String, HealthCheckResult)>) -> Seq<char> {
    "Website Health Check Report:\n\n"@ + spec_entries_text(s) + spec_summary_text(
        s.len() as int,
        spec_count_up(s),
        spec_count_down(s),
    )
}

/// Appending one entry extends the rendered sections and the counts by that
/// entry alone.
proof fn lemma_render_step(s: Seq<(String, HealthCheckResult)>, i: int)
    requires
        0 <= i < s.len(),
    ensures
        spec_entries_text(s.take(i + 1)) == spec_entries_text(s.take(i)) + spec_entry_text(s[i]),
        spec_count_up(s.take(i + 1)) == spec_count_up(s.take(i)) + if s[i].1.status is Up {
            1int
        } else {
            0int
        },
        spec_count_down(s.take(i + 1)) == spec_count_down(s.take(i)) + if s[i].1.status is Down {
            1int
        } else {
            0int
        },
{
    let t = s.take(i + 1);
    assert(t.drop_last() =~= s.take(i));
    assert(t.last() == s[i]);
}

/// Every entry is either `Up` or `Down`, so the two counts always partition
/// the entries: `total_up + total_down` equals the number of targets checked.
pub proof fn lemma_up_down_partition(s: Seq<(String, HealthCheckResult)>)
    ensures
        spec_count_up(s) + spec_count_down(s) == s.len(),
    decreases s.len(),
{
    if s.len() > 0 {
        lemma_up_down_partition(s.drop_last());
    }
}

/// Removing one entry takes away exactly that entry's contribution to the
/// counts.
proof fn lemma_counts_remove(s: Seq<(String, HealthCheckResult)>, j: int)
    requires
        0 <= j < s.len(),
    ensures
        spec_count_up(s) == spec_count_up(s.remove(j)) + if s[j].1.status is Up {
            1int
        } else {
            0int
        },
        spec_count_down(s) == spec_count_down(s.remove(j)) + if s[j].1.status is Down {
            1int
        } else {
            0int
        },
    decreases s.len(),
{
    if j == s.len() - 1 {
        assert(s.remove(j) =~= s.drop_last());
    } else {
        let t = s.remove(j);
        assert(t.last() == s.last());
        assert(t.drop_last() =~= s.drop_last().remove(j));
        lemma_counts_remove(s.drop_last(), j);
    }
}

/// The summary counts do not depend on the order of the entries: any two
/// arrangements of the same entries have the same number of `Up` and the
/// same number of `Down` targets.
pub proof fn lemma_counts_order_independent(
    a: Seq<(String, HealthCheckResult)>,
    b: Seq<(String, HealthCheckResult)>,
)
    requires
        a.to_multiset() == b.to_multiset(),
    ensures
        spec_count_up(a) == spec_count_up(b),
        spec_count_down(a) == spec_count_down(b),
    decreases a.len(),
{
    broadcast use vstd::seq_lib::group_to_multiset_ensures;
    broadcast use vstd::multiset::group_multiset_axioms;

    if a.len() == 0 {
        assert(b.to_multiset().len() == 0);
        assert(b.len() == 0);
    } else {
        let x = a.last();
        assert(a.to_multiset().count(x) > 0) by {
            assert(a.contains(x));
        }
        assert(b.contains(x));
        let j = choose|j: int| 0 <= j < b.len() && b[j] == x;
        assert(a =~= a.drop_last().push(x));
        assert(a.to_multiset() =~= a.drop_last().to_multiset().insert(x));
        assert(b.remove(j).to_multiset() =~= b.to_multiset().remove(x));
        assert(a.drop_last().to_multiset() =~= b.remove(j).to_multiset());
        lemma_counts_order_independent(a.drop_last(), b.remove(j));
        lemma_counts_remove(b, j);
    }
}

/// Mapping a function over two arrangements of the same elements gives two
/// arrangements of the same images.
proof fn lemma_map_values_multiset<A, B>(a: Seq<A>, b: Seq<A>, f: spec_fn(A) -> B)
    requires
        a.to_multiset() == b.to_multiset(),
    ensures
        a.map_values(f).to_multiset() == b.map_values(f).to_multiset(),
    decreases a.len(),
{
    broadcast use vstd::seq_lib::group_to_multiset_ensures;
    broadcast use vstd::multiset::group_multiset_axioms;

    if a.len() == 0 {
        assert(b.to_multiset().len() == 0);
        assert(b.len() == 0);
        assert(a.map_values(f) =~= b.map_values(f));
    } else {
        let x = a.last();
        assert(a.to_multiset().count(x) > 0) by {
            assert(a.contains(x));
        }
        assert(b.contains(x));
        let j = choose|j: int| 0 <= j < b.len() && b[j] == x;
        assert(a =~= a.drop_last().push(x));
        assert(a.to_multiset() =~= a.drop_last().to_multiset().insert(x));
        assert(b.remove(j).to_multiset() =~= b.to_multiset().remove(x));
        assert(a.drop_last().to_multiset() =~= b.remove(j).to_multiset());
        lemma_map_values_multiset(a.drop_last(), b.remove(j), f);
        assert(a.map_values(f) =~= a.drop_last().map_values(f).push(f(x)));
        assert(a.map_values(f).to_multiset() =~= a.drop_last().map_values(f).to_multiset().insert(
            f(x),
        ));
        assert(b.remove(j).map_values(f) =~= b.map_values(f).remove(j));
        assert(b.map_values(f).remove(j).to_multiset() =~= b.map_values(f).to_multiset().remove(
            f(x),
        ));
        assert(b.map_values(f).to_multiset().count(f(x)) > 0) by {
            assert(b.map_values(f)[j] == f(x));
            assert(b.map_values(f).contains(f(x)));
        }
        assert(b.map_values(f).to_multiset().remove(f(x)).insert(f(x)) =~= b.map_values(
            f,
        ).to_multiset());
    }
}

/// The per-URL sections do not depend on the order of the entries either:
/// any two arrangements of the same entries render the same collection of
/// sections, merely in another order.
pub proof fn lemma_sections_order_independent(
    a: Seq<(String, HealthCheckResult)>,
    b: Seq<(String, HealthCheckResult)>,
)
    requires
        a.to_multiset() == b.to_multiset(),
    ensures
        a.map_values(|e: (String, HealthCheckResult)| spec_entry_text(e)).to_multiset()
            == b.map_values(|e: (String, HealthCheckResult)| spec_entry_text(e)).to_multiset(),
{
    lemma_map_values_multiset(a, b, |e: (String, HealthCheckResult)| spec_entry_text(e));
}

/// Rendering is a pure function of the collected results: two cycles whose
/// results are equal render byte-for-byte identical reports, with identical
/// per-URL sections and identical summary counts.
pub proof fn lemma_report_deterministic(
    a: Seq<(String, HealthCheckResult)>,
    b: Seq<(String, HealthCheckResult)>,
)
    requires
        a == b,
    ensures
        spec_report(a) == spec_report(b),
        spec_count_up(a) == spec_count_up(b),
        spec_count_down(a) == spec_count_down(b),
{
}

/// Shift one appended piece into the rendered prefix.
proof fn lemma_shift(pre: Seq<char>, acc: Seq<char>, piece: Seq<char>)
    ensures
        (pre + acc) + piece == pre + (acc + piece),
{
    vstd::seq_lib::lemma_concat_associative(pre, acc, piece);
}

/// Render one cycle's results as the plain-text report: one section per
/// target in probe order, then the summary with the aggregate counts.
#[verifier::rlimit(50)]
pub fn generate_report(results: &HealthCycleResults) -> (report: String)
    ensures
        report@ == spec_report(results@),
{
    let ghost s = results@;
    let mut report = String::from_str("Website Health Check Report:\n\n");
    let mut total_up: usize = 0;
    let mut total_down: usize = 0;
    let n = results.len();
    proof {
        assert(s.take(0) =~= Seq::<(String, HealthCheckResult)>::empty());
    }
    for i in 0..n
        invariant
            n == s.len(),
            s == results@,
            report@ == "Website Health Check Report:\n\n"@ + spec_entries_text(s.take(i as int)),
            total_up == spec_count_up(s.take(i as int)),
            total_down == spec_count_down(s.take(i as int)),
            total_up + total_down == i,
    {
        let ghost pre = report@;
        let ghost mut acc = Seq::<char>::empty();
        let entry = results.entry_at(i);
        report.append("URL: ");
        proof {
            assert(pre + acc =~= pre);
            lemma_shift(pre, acc, "URL: "@);
            acc = acc + "URL: "@;
        }
        report.append(entry.0.as_str());
        proof {
            lemma_shift(pre, acc, entry.0@);
            acc = acc + entry.0@;
        }
        match entry.1.status {
            Status::Up => {
                report.append("\n  Status: UP\n");
                proof {
                    lemma_shift(pre, acc, "\n  Status: UP\n"@);
                    acc = acc + "\n  Status: UP\n"@;
                }
                report.append("  DNS & Request Time: ");
                proof {
                    lemma_shift(pre, acc, "  DNS & Request Time: "@);
                    acc = acc + "  DNS & Request Time: "@;
                }
                let dns = u128_to_string(entry.1.dns_time_ms.unwrap_or(0));
                report.append(dns.as_str());
                proof {
                    lemma_shift(pre, acc, dns@);
                    acc = acc + dns@;
                }
                report.append(" ms\n");
                proof {
                    lemma_shift(pre, acc, " ms\n"@);
                    acc = acc + " ms\n"@;
                }
                report.append("  Total Response Time: ");
                proof {
                    lemma_shift(pre, acc, "  Total Response Time: "@);
                    acc = acc + "  Total Response Time: "@;
                }
                let resp = u128_to_string(entry.1.response_time_ms.unwrap_or(0));
                report.append(resp.as_str());
                proof {
                    lemma_shift(pre, acc, resp@);
                    acc = acc + resp@;
                }
                report.append(" ms\n");
                proof {
                    lemma_shift(pre, acc, " ms\n"@);
                    acc = acc + " ms\n"@;
                }
                report.append("  Body Read Time: ");
                proof {
                    lemma_shift(pre, acc, "  Body Read Time: "@);
                    acc = acc + "  Body Read Time: "@;
                }
                let body = u128_to_string(entry.1.body_time_ms.unwrap_or(0));
                report.append(body.as_str());
                proof {
                    lemma_shift(pre, acc, body@);
                    acc = acc + body@;
                }
                report.append(" ms\n");
                proof {
                    lemma_shift(pre, acc, " ms\n"@);
                    acc = acc + " ms\n"@;
                }
                report.append("\n");
                proof {
                    lemma_shift(pre, acc, "\n"@);
                    acc = acc + "\n"@;
                }
                total_up = total_up + 1;
            },
            Status::Down => {
                report.append("\n  Status: DOWN\n");
                proof {
                    lemma_shift(pre, acc, "\n  Status: DOWN\n"@);
                    acc = acc + "\n  Status: DOWN\n"@;
                }
                report.append("  Error: ");
                proof {
                    lemma_shift(pre, acc, "  Error: "@);
                    acc = acc + "  Error: "@;
                }
                match &entry.1.error {
                    Option::Some(message) => report.append(message.as_str()),
                    Option::None => report.append("Unknown error"),
                }
                proof {
                    lemma_shift(pre, acc, spec_error_text(entry.1.error));
                    acc = acc + spec_error_text(entry.1.error);
                }
                report.append("\n");
                proof {
                    lemma_shift(pre, acc, "\n"@);
                    acc = acc + "\n"@;
                }
                report.append("\n");
                proof {
                    lemma_shift(pre, acc, "\n"@);
                    acc = acc + "\n"@;
                }
                total_down = total_down + 1;
            },
        }
        proof {
            assert(acc == spec_entry_text(s[i as int]));
            lemma_render_step(s, i as int);
        }
    }
    proof {
        assert(s.take(n as int) =~= s);
    }
    let ghost pre = report@;
    let ghost mut acc = Seq::<char>::empty();
    report.append("\nSummary:\n  Total Websites Checked: ");
    proof {
        assert(pre + acc =~= pre);
        lemma_shift(pre, acc, "\nSummary:\n  Total Websites Checked: "@);
        acc = acc + "\nSummary:\n  Total Websites Checked: "@;
    }
    let checked = u128_to_string(n as u128);
    report.append(checked.as_str());
    proof {
        lemma_shift(pre, acc, checked@);
        acc = acc + checked@;
    }
    report.append("\n  Total UP: ");
    proof {
        lemma_shift(pre, acc, "\n  Total UP: "@);
        acc = acc + "\n  Total UP: "@;
    }
    let up = u128_to_string(total_up as u128);
    report.append(up.as_str());
    proof {
        lemma_shift(pre, acc, up@);
        acc = acc + up@;
    }
    report.append("\n  Total DOWN: ");
    proof {
        lemma_shift(pre, acc, "\n  Total DOWN: "@);
        acc = acc + "\n  Total DOWN: "@;
    }
    let down = u128_to_string(total_down as u128);
    report.append(down.as_str());
    proof {
        lemma_shift(pre, acc, down@);
        acc = acc + down@;
    }
    report.append("\n\n");
    proof {
        lemma_shift(pre, acc, "\n\n"@);
        acc = acc + "\n\n"@;
        assert(acc == spec_summary_text(s.len() as int, spec_count_up(s), spec_count_down(s)));
        assert(report@ == spec_report(s));
    }
    report
}

} // verus!
