//! The compilation job's lifecycle states and the status record the
//! service reports for a job.

use vstd::prelude::*;

use crate::duration::{format_milliseconds, spec_format_milliseconds};
use crate::strutil::str_eq;

verus! {

/// A job's lifecycle state: a closed set of known states plus a catch-all
/// for status strings this client does not recognize.  `Completed` and
/// `Failed` are terminal; everything else is revisited on the next poll.
#[derive(Debug, Clone, PartialEq, Eq)]
pub enum CompilationStatus {
    Queued,
    Processing,
    Completed,
    Failed,
    Unknown(String),
}

/// Whether status `c` is the one that string `s` names (an unrecognized
/// string is carried verbatim in the catch-all).
pub open spec fn spec_status_matches(s: Seq<char>, c: CompilationStatus) -> bool {
    if s == "Queued"@ {
        c is Queued
    } else if s == "Processing"@ {
        c is Processing
    } else if s == "Completed"@ {
        c is Completed
    } else if s == "Failed"@ {
        c is Failed
    } else {
        c matches CompilationStatus::Unknown(t) && t@ == s
    }
}

/// The four known status strings are pairwise distinct (all but one pair
/// differ in length; `Queued` and `Failed` differ at their first
/// character).
pub proof fn lemma_known_status_strings_distinct()
    ensures
        "Queued"@ != "Processing"@,
        "Queued"@ != "Completed"@,
        "Queued"@ != "Failed"@,
        "Processing"@ != "Completed"@,
        "Processing"@ != "Failed"@,
        "Completed"@ != "Failed"@,
{
    reveal_strlit("Queued");
    reveal_strlit("Processing");
    reveal_strlit("Completed");
    reveal_strlit("Failed");
    if "Queued"@ == "Failed"@ {
        assert("Queued"@[0] == "Failed"@[0]);
        assert(false);
    }
    if "Queued"@ == "Processing"@ {
        assert("Queued"@.len() == "Processing"@.len());
        assert(false);
    }
    if "Queued"@ == "Completed"@ {
        assert("Queued"@.len() == "Completed"@.len());
        assert(false);
    }
    if "Processing"@ == "Completed"@ {
        assert("Processing"@.len() == "Completed"@.len());
        assert(false);
    }
    if "Processing"@ == "Failed"@ {
        assert("Processing"@.len() == "Failed"@.len());
        assert(false);
    }
    if "Completed"@ == "Failed"@ {
        assert("Completed"@.len() == "Failed"@.len());
        assert(false);
    }
}

impl CompilationStatus {
    /// Parses a status string; an unrecognized string is kept verbatim in
    /// the catch-all variant.
    pub fn from_str(s: &str) -> (r: Self)
        ensures
            spec_status_matches(s@, r),
    {
        if str_eq(s, "Queued") {
            Self::Queued
        } else if str_eq(s, "Processing") {
            Self::Processing
        } else if str_eq(s, "Completed") {
            Self::Completed
        } else if str_eq(s, "Failed") {
            Self::Failed
        } else {
            Self::Unknown(s.to_owned())
        }
    }
}

/// The status record of one poll reply: the raw status string plus the
/// optional fields the service may attach.  Absent optional fields stay
/// absent; they are never conflated with zero or an empty string.
pub struct StatusData {
    pub status: String,
    pub download_url: Option<String>,
    pub error_message: Option<String>,
    pub duration: Option<u64>,
    pub queue_position: Option<u32>,
}

/// What `format_duration` returns: the rendered duration when one was
/// reported, an explicit unknown marker otherwise.
pub open spec fn spec_format_duration(d: Option<u64>) -> Seq<char> {
    match d {
        Some(ms) => spec_format_milliseconds(ms),
        None => "неизвестно"@,
    }
}

impl StatusData {
    /// The lifecycle state this record reports.
    pub fn compilation_status(&self) -> (r: CompilationStatus)
        ensures
            spec_status_matches(self.status@, r),
    {
        CompilationStatus::from_str(self.status.as_str())
    }

    /// Renders this record's elapsed time; an absent duration renders as
    /// the explicit unknown marker, never as a number.
    pub fn format_duration(&self) -> (r: String)
        ensures
            r@ == spec_format_duration(self.duration),
    {
        match self.duration {
            Some(ms) => format_milliseconds(ms),
            None => "неизвестно".to_owned(),
        }
    }
}

} // verus!
