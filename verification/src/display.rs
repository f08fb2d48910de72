//! The decisions behind the overview display and a few other pieces of
//! the tool's human-readable output.

use vstd::prelude::*;
use vstd::string::*;
use crate::numbers::{dec_seq, dec_string};

verus! {

/// Character-by-character string equality, over the views.
pub fn str_eq(a: &str, b: &str) -> (r: bool)
    ensures
        r == (a@ == b@),
{
    let na = a.unicode_len();
    let nb = b.unicode_len();
    if na != nb {
        return false;
    }
    let mut i: usize = 0;
    while i < na
        invariant
            i <= na,
            na == a@.len(),
            nb == b@.len(),
            na == nb,
            forall|j: int| 0 <= j < i ==> a@[j] == b@[j],
        decreases na - i,
    {
        if a.get_char(i) != b.get_char(i) {
            return false;
        }
        i = i + 1;
    }
    proof {
        assert(a@ =~= b@);
    }
    true
}

/// The document-count summary shown for a collection in the overview:
/// the available count always, the processing and failed counts only
/// when positive. (The caller substitutes the counts the service's
/// answer implies when a field is absent.)
pub open spec fn spec_counts_summary(available: u64, processing: u64, failed: u64) -> Seq<char> {
    if processing > 0 && failed > 0 {
        dec_seq(available as nat) + " available, "@ + dec_seq(processing as nat)
            + " processing, "@ + dec_seq(failed as nat) + " failed"@
    } else if processing > 0 {
        dec_seq(available as nat) + " available, "@ + dec_seq(processing as nat)
            + " processing"@
    } else if failed > 0 {
        dec_seq(available as nat) + " available, "@ + dec_seq(failed as nat) + " failed"@
    } else {
        dec_seq(available as nat) + " available"@
    }
}

/// Render the document-count summary for one collection.
pub fn counts_summary(available: u64, processing: u64, failed: u64) -> (r: String)
    ensures
        r@ == spec_counts_summary(available, processing, failed),
{
    let mut s = dec_string(available);
    if processing > 0 && failed > 0 {
        s.append(" available, ");
        s.append(dec_string(processing).as_str());
        s.append(" processing, ");
        s.append(dec_string(failed).as_str());
        s.append(" failed");
    } else if processing > 0 {
        s.append(" available, ");
        s.append(dec_string(processing).as_str());
        s.append(" processing");
    } else if failed > 0 {
        s.append(" available, ");
        s.append(dec_string(failed).as_str());
        s.append(" failed");
    } else {
        s.append(" available");
    }
    proof {
        assert(s@ =~= spec_counts_summary(available, processing, failed));
    }
    s
}

/// The status suffix shown after an environment's name: pending wins,
/// then the read-only marker, else nothing.
pub open spec fn spec_status_label(status: Option<Seq<char>>, read_only: Option<bool>) -> Seq<char> {
    if status == Some("pending"@) {
        " - pending"@
    } else if read_only == Some(true) {
        " - read only"@
    } else {
        ""@
    }
}

/// Pick the status suffix for an environment, from its status text (when
/// its record has one) and its read-only marker.
pub fn environment_status_label(status: Option<&str>, read_only: Option<bool>)
    -> (r: &'static str)
    ensures
        r@ == spec_status_label(
            match status {
                Some(s) => Some(s@),
                None => None,
            },
            read_only,
        ),
{
    let pending = match status {
        Some(s) => str_eq(s, "pending"),
        None => false,
    };
    if pending {
        " - pending"
    } else {
        match read_only {
            Some(true) => " - read only",
            _ => "",
        }
    }
}

/// Whether a freshly created environment has finished coming up: the
/// service reports it active or available.
pub fn is_environment_ready(status: &str) -> (r: bool)
    ensures
        r == (status@ == "active"@ || status@ == "available"@),
{
    if str_eq(status, "active") {
        true
    } else {
        str_eq(status, "available")
    }
}

/// The credentials file a run reads: the command-line choice wins, then
/// the environment variable, then the well-known default name.
pub fn credentials_file_name(cli_choice: Option<String>, env_var: Option<String>)
    -> (r: String)
    ensures
        match cli_choice {
            Some(f) => r == f,
            None => (match env_var {
                Some(f) => r == f,
                None => r@ == "credentials.json"@,
            }),
        },
{
    match cli_choice {
        Some(f) => f,
        None => match env_var {
            Some(f) => f,
            None => String::from_str("credentials.json"),
        },
    }
}

} // verus!
