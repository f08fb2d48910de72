//! The final report: the four tallies and the elapsed time, and the
//! three human-readable lines they render as. A report is produced on
//! every run, the aborted ones included.

use vstd::prelude::*;
use vstd::string::*;
use crate::numbers::{dec_seq, dec_string};
use crate::retry::Counters;

verus! {

/// The final tally of a run.
#[derive(Clone, Copy, Debug, PartialEq, Eq, Structural)]
pub struct Report {
    /// Whole seconds of wall-clock time the run took.
    pub elapsed_secs: u64,
    /// Items delivered.
    pub success: u64,
    /// Throttled responses seen.
    pub too_many_requests: u64,
    /// Transient errors seen.
    pub other_errors: u64,
    /// Items permanently failed.
    pub failure: u64,
}

/// The first report line: items delivered and elapsed time.
pub open spec fn spec_sent_line(r: Report) -> Seq<char> {
    "\nSent "@ + dec_seq(r.success as nat) + " documents in "@
        + dec_seq(r.elapsed_secs as nat) + " seconds"@
}

/// The second report line: throttled responses and unexpected errors.
pub open spec fn spec_errors_line(r: Report) -> Seq<char> {
    "Hit "@ + dec_seq(r.too_many_requests as nat)
        + " TooManyRequests (429) responses and "@
        + dec_seq(r.other_errors as nat) + " unexpected errors"@
}

/// The third report line: permanent failures.
pub open spec fn spec_failed_line(r: Report) -> Seq<char> {
    dec_seq(r.failure as nat) + " documents failed"@
}

/// Take the final tally from the run counters: every field of the report
/// is exactly the counter of the same name.
pub fn final_report(c: &Counters, elapsed_secs: u64) -> (r: Report)
    ensures
        r.elapsed_secs == elapsed_secs,
        r.success == c.success,
        r.too_many_requests == c.too_many_requests,
        r.other_errors == c.other_errors,
        r.failure == c.failure,
{
    Report {
        elapsed_secs,
        success: c.success,
        too_many_requests: c.too_many_requests,
        other_errors: c.other_errors,
        failure: c.failure,
    }
}

impl Report {
    /// The three lines of the final tally, exactly as the run prints
    /// them, numbers rendered in decimal.
    pub fn render_lines(&self) -> (lines: Vec<String>)
        ensures
            lines@.len() == 3,
            lines@[0]@ == spec_sent_line(*self),
            lines@[1]@ == spec_errors_line(*self),
            lines@[2]@ == spec_failed_line(*self),
    {
        let mut sent = String::from_str("\nSent ");
        sent.append(dec_string(self.success).as_str());
        sent.append(" documents in ");
        sent.append(dec_string(self.elapsed_secs).as_str());
        sent.append(" seconds");
        proof {
            assert(sent@ =~= spec_sent_line(*self));
        }

        let mut errors = String::from_str("Hit ");
        errors.append(dec_string(self.too_many_requests).as_str());
        errors.append(" TooManyRequests (429) responses and ");
        errors.append(dec_string(self.other_errors).as_str());
        errors.append(" unexpected errors");
        proof {
            assert(errors@ =~= spec_errors_line(*self));
        }

        let mut failed = dec_string(self.failure);
        failed.append(" documents failed");
        proof {
            assert(failed@ =~= spec_failed_line(*self));
        }

        let mut lines: Vec<String> = Vec::new();
        lines.push(sent);
        lines.push(errors);
        lines.push(failed);
        lines
    }
}

} // verus!
