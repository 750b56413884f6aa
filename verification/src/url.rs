//! Normalization of download references handed out by the service.
//!
//! A reference may be an absolute URL, an absolute path on the service
//! host, or a bare fragment; the last two are resolved against the
//! service's base address.

use vstd::prelude::*;

use crate::strutil::{spec_starts_with, str_starts_with};

verus! {

/// The per-request timeout for each HTTP call, in seconds.
pub const REQUEST_TIMEOUT_SECS: u64 = 600;

/// The service's base address, as a character sequence.
pub open spec fn spec_base_url() -> Seq<char> {
    "https://texcompile.ru"@
}

/// The service's base address.
pub fn base_url() -> (r: &'static str)
    ensures
        r@ == spec_base_url(),
{
    "https://texcompile.ru"
}

/// Whether a reference is already an absolute URL and is used verbatim.
pub open spec fn spec_is_absolute(u: Seq<char>) -> bool {
    spec_starts_with(u, "http://"@) || spec_starts_with(u, "https://"@)
}

/// What `normalize_url` returns: the reference verbatim if absolute,
/// appended directly to the base address if it starts with `/`, and
/// joined with a `/` separator otherwise.
pub open spec fn spec_normalize_url(u: Seq<char>) -> Seq<char> {
    if spec_is_absolute(u) {
        u
    } else if u.len() > 0 && u[0] == '/' {
        spec_base_url() + u
    } else {
        spec_base_url() + "/"@ + u
    }
}

/// Resolves a download reference into an absolute address.
pub fn normalize_url(url: &str) -> (r: String)
    ensures
        r@ == spec_normalize_url(url@),
{
    if str_starts_with(url, "http://") || str_starts_with(url, "https://") {
        url.to_owned()
    } else if str_starts_with(url, "/") {
        proof {
            reveal_strlit("/");
        }
        let mut r = base_url().to_owned();
        r.append(url);
        proof {
            assert(r@ =~= spec_normalize_url(url@));
        }
        r
    } else {
        proof {
            reveal_strlit("/");
        }
        let mut r = base_url().to_owned();
        r.append("/");
        r.append(url);
        proof {
            assert(r@ =~= spec_normalize_url(url@));
        }
        r
    }
}

} // verus!
