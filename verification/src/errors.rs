//! The client's error taxonomy.  Every failure of a single compile-and-
//! download invocation is one of these; the unverified front end renders
//! them for the user.

use vstd::prelude::*;

verus! {

/// Why a compile-and-download invocation failed.
#[derive(Debug, Clone, PartialEq, Eq)]
pub enum ClientError {
    /// The local input could not be used at all (unreadable file, or a
    /// file name from which no output name can be derived).
    InputError { detail: String },
    /// The input file's extension is neither `.tex` nor `.zip`; detected
    /// before any network call.
    UnsupportedFileType,
    /// An endpoint answered with a non-success HTTP status.
    TransportError { code: u16, body: String },
    /// An envelope's success flag was false, or a required field was
    /// absent from a success envelope.
    ProtocolError { message: String },
    /// The service reported terminal failure for the job.
    CompilationFailed { message: String, duration: String },
    /// No terminal state was observed within the attempt budget.
    PollTimeout { attempts: u32 },
}

} // verus!
