//! The lines that a run prints: the summary with the throughput, and the
//! number of rows found afterwards.

use crate::error::{BenchError, ErrorView};
use crate::plan::{Plan, PlanView};
use crate::text::{decimal, decimal_text, grouped, with_commas};
use crate::throughput::{throughput, throughput_of, Elapsed};
use vstd::prelude::*;
use vstd::string::*;

verus! {

/// How a `std::time::Duration` of `secs` seconds and `nanos` nanoseconds is
/// written for debugging.
pub uninterp spec fn duration_text(secs: u64, nanos: u32) -> Seq<char>;

/// Writes an elapsed time the way `std::time::Duration` is written for
/// debugging.
///
/// Trusted: builds the duration with `Duration::new` and formats it with
/// `{:?}`. `Duration::new` panics only when the nanoseconds carry over into
/// seconds that overflow, which a value below one second cannot do. The text
/// depends on the two numbers alone.
#[verifier::external_body]
fn duration_debug(secs: u64, nanos: u32) -> (s: String)
    requires
        nanos < 1_000_000_000,
    ensures
        s@ == duration_text(secs, nanos),
{
    format!("{:?}", std::time::Duration::new(secs, nanos))
}

/// How a throughput is written: with commas between groups of three
/// digits, or `n/a` where there is none.
pub open spec fn rate_text(rate: Option<nat>) -> Seq<char> {
    match rate {
        Some(r) => grouped(r),
        None => "n/a"@,
    }
}

/// The line that sums up a run.
pub open spec fn report_text(plan: PlanView, duration: Seq<char>, rate: Option<nat>) -> Seq<char> {
    "Benchmark: insert "@ + grouped(plan.total()) + " records ("@ + grouped(plan.inserts_per_thread)
        + "/"@ + decimal(plan.workers()) + "): "@ + duration + " ("@ + rate_text(rate)
        + " inserts/s)"@
}

/// The line that gives the number of rows found.
pub open spec fn count_text(count: nat) -> Seq<char> {
    "num rows for `users` table: "@ + decimal(count)
}

/// Writes the line that sums up a run, given the elapsed time as text and
/// the throughput.
pub fn compose_report(plan: &Plan, duration: &str, rate: Option<u128>) -> (s: String)
    ensures
        s@ == report_text(
            plan@,
            duration@,
            match rate {
                Some(r) => Some(r as nat),
                None => None,
            },
        ),
{
    let total = with_commas(plan.total_inserts() as u128);
    let each = with_commas(plan.inserts_per_thread() as u128);
    let workers = decimal_text(plan.workers());
    let mut s = String::from_str("Benchmark: insert ");
    s.append(total.as_str());
    s.append(" records (");
    s.append(each.as_str());
    s.append("/");
    s.append(workers.as_str());
    s.append("): ");
    s.append(duration);
    s.append(" (");
    match rate {
        Some(r) => {
            let speed = with_commas(r);
            s.append(speed.as_str());
        },
        None => {
            s.append("n/a");
        },
    }
    s.append(" inserts/s)");
    s
}

/// Writes the line that sums up a run of `plan` that took `elapsed`: the
/// total, the inserts of each worker and the number of workers, the elapsed
/// time, and the throughput.
pub fn report_line(plan: &Plan, elapsed: &Elapsed) -> (s: String)
    ensures
        s@ == report_text(
            plan@,
            duration_text(elapsed@.secs, elapsed@.nanos),
            throughput_of(plan@.total(), elapsed@),
        ),
{
    let duration = duration_debug(elapsed.secs(), elapsed.subsec_nanos());
    let rate = throughput(plan.total_inserts(), elapsed);
    compose_report(plan, duration.as_str(), rate)
}

/// Writes the line that gives the number of rows found in the table.
pub fn count_line(count: u64) -> (s: String)
    ensures
        s@ == count_text(count as nat),
{
    let digits = decimal_text(count);
    let mut s = String::from_str("num rows for `users` table: ");
    s.append(digits.as_str());
    s
}

/// The end of the count: the line that gives the number of rows when the
/// storage engine has counted them, and a failure of the query, with the
/// engine's reason, when it has not.
pub fn count_report(counted: Result<u64, String>) -> (r: Result<String, BenchError>)
    ensures
        match counted {
            Ok(n) => r matches Ok(line) && line@ == count_text(n as nat),
            Err(reason) => r matches Err(e) && e@ == (ErrorView::Query { reason: reason@ }),
        },
{
    match counted {
        Ok(n) => Ok(count_line(n)),
        Err(reason) => Err(BenchError::Query { reason }),
    }
}

} // verus!
