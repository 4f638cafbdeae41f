//! The secret token that the remote API echoes in a request header.
use vstd::prelude::*;

use crate::status::Status;

verus! {

/// Name of the request header that carries the secret token.
pub const SECRET_HEADER: &'static str = "x-telegram-bot-api-secret-token";

/// Longest secret token the remote API accepts.
pub const MAX_SECRET_LEN: usize = 256;

/// A byte allowed in a secret token: ASCII `a-z` (97..=122), `A-Z` (65..=90),
/// `0-9` (48..=57), `_` (95) and `-` (45).
pub open spec fn is_secret_byte(c: u8) -> bool {
    (97 <= c && c <= 122) || (65 <= c && c <= 90) || (48 <= c && c <= 57) || c == 95 || c == 45
}

/// A well-formed secret token: 1 to 256 bytes, each of them allowed.
pub open spec fn is_valid_secret(s: Seq<u8>) -> bool {
    &&& 1 <= s.len() <= MAX_SECRET_LEN
    &&& forall|i: int| 0 <= i < s.len() ==> is_secret_byte(#[trigger] s[i])
}

/// Whether the secret token stored in a listener's configuration (`configured`)
/// admits a request that carried `header` (both absent, or both present and equal).
pub open spec fn secret_admits(configured: Option<Seq<u8>>, header: Option<Seq<u8>>) -> bool {
    configured == header
}

pub open spec fn opt_view(o: Option<Vec<u8>>) -> Option<Seq<u8>> {
    match o {
        Some(v) => Some(v@),
        None => None,
    }
}

fn secret_byte(c: u8) -> (r: bool)
    ensures
        r == is_secret_byte(c),
{
    (97 <= c && c <= 122) || (65 <= c && c <= 90) || (48 <= c && c <= 57) || c == 95 || c == 45
}

/// Checks that `bytes` is a well-formed secret token.
pub fn check_secret(bytes: &[u8]) -> (r: bool)
    ensures
        r == is_valid_secret(bytes@),
{
    let len = bytes.len();
    if len < 1 || len > MAX_SECRET_LEN {
        return false;
    }
    let mut i: usize = 0;
    while i < len
        invariant
            len == bytes@.len(),
            i <= len,
            forall|j: int| 0 <= j < i ==> is_secret_byte(#[trigger] bytes@[j]),
        decreases len - i,
    {
        if !secret_byte(bytes[i]) {
            return false;
        }
        i = i + 1;
    }
    true
}

/// Compares two byte strings without stopping at the first difference, so
/// that the time taken does not reveal how long a common prefix is.
pub fn fixed_time_eq(a: &[u8], b: &[u8]) -> (r: bool)
    ensures
        r == (a@ == b@),
{
    if a.len() != b.len() {
        return false;
    }
    let mut diff: u8 = 0;
    let mut i: usize = 0;
    proof {
        assert(a@.subrange(0, 0) =~= b@.subrange(0, 0));
    }
    while i < a.len()
        invariant
            a@.len() == b@.len(),
            i <= a@.len(),
            (diff == 0) == (a@.subrange(0, i as int) == b@.subrange(0, i as int)),
        decreases a@.len() - i,
    {
        let x = a[i];
        let y = b[i];
        proof {
            assert(a@.subrange(0, i + 1) == a@.subrange(0, i as int).push(x));
            assert(b@.subrange(0, i + 1) == b@.subrange(0, i as int).push(y));
            if a@.subrange(0, i + 1) == b@.subrange(0, i + 1) {
                assert(a@.subrange(0, i + 1)[i as int] == b@.subrange(0, i + 1)[i as int]);
                assert(a@.subrange(0, i as int) =~= a@.subrange(0, i + 1).drop_last());
                assert(b@.subrange(0, i as int) =~= b@.subrange(0, i + 1).drop_last());
            }
            assert(((diff | (x ^ y)) == 0u8) == (diff == 0u8 && x == y)) by (bit_vector);
        }
        diff = diff | (x ^ y);
        i = i + 1;
    }
    proof {
        assert(a@.subrange(0, a@.len() as int) =~= a@);
        assert(b@.subrange(0, b@.len() as int) =~= b@);
    }
    diff == 0
}

/// Reads the secret-token header of a request. A request without it carries
/// no token; one with a malformed token is rejected as unauthorized.
pub fn secret_from_header(header: Option<Vec<u8>>) -> (r: Result<Option<Vec<u8>>, Status>)
    ensures
        match header {
            None => r matches Ok(None),
            Some(h) => match r {
                Ok(Some(v)) => is_valid_secret(h@) && v@ == h@,
                Ok(None) => false,
                Err(e) => !is_valid_secret(h@) && e == Status::Unauthorized,
            },
        },
{
    match header {
        None => Ok(None),
        Some(h) => {
            if check_secret(h.as_slice()) {
                Ok(Some(h))
            } else {
                Err(Status::Unauthorized)
            }
        },
    }
}

/// Whether a request that carried `header` passes the configured secret:
/// both absent, or both present and equal byte for byte (compared in fixed
/// time).
pub fn secret_matches(configured: &Option<Vec<u8>>, header: &Option<Vec<u8>>) -> (r: bool)
    ensures
        r == secret_admits(opt_view(*configured), opt_view(*header)),
{
    match (configured, header) {
        (None, None) => true,
        (Some(c), Some(h)) => fixed_time_eq(c.as_slice(), h.as_slice()),
        _ => false,
    }
}

} // verus!
