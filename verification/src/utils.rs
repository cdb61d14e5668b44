//! Small helpers around the orchestration core: the paged view over a
//! sequence, the capability-session derivation from a hex-encoded bearer
//! credential, and the clock helper.

use vstd::prelude::*;
use vstd::slice::slice_subrange;

use crate::error::CoreError;
use crate::hex_utils::parsed_hex;

verus! {

/// A stateless paged view of an ordered sequence: fixed-size pages for list
/// responses, no copy and no mutation of the source.
pub struct PagedVec<'a, T> {
    pub vec: &'a [T],
    pub page_length: usize,
}

impl<'a, T> PagedVec<'a, T> {
    pub fn new(vec: &'a [T], page_length: usize) -> (r: PagedVec<'a, T>)
        requires
            page_length >= 1,
        ensures
            r.vec@ == vec@,
            r.page_length == page_length,
    {
        PagedVec { vec, page_length }
    }

    /// The page containing logical index `index`, together with the
    /// element's offset within that page; nothing when `index` is past the
    /// end. The page runs from `index - index % page_length` to the end of
    /// the page or of the sequence, whichever comes first.
    pub fn page(&self, index: usize) -> (r: Option<(usize, &'a [T])>)
        requires
            self.page_length >= 1,
        ensures
            r is Some <==> index < self.vec@.len(),
            r matches Some(p) ==> p.0 == index % self.page_length && p.1@
                == self.vec@.subrange(
                index - index % self.page_length,
                vstd::math::min(
                    self.vec@.len() as int,
                    index - index % self.page_length + self.page_length,
                ),
            ),
    {
        let slice = self.vec;
        let len: usize = slice.len();
        if index < len {
            let page_index: usize = index % self.page_length;
            proof {
                assert(index % self.page_length <= index) by (nonlinear_arith)
                    requires
                        self.page_length >= 1,
                ;
            }
            let start: usize = index - page_index;
            let end: usize = if len - start < self.page_length {
                len
            } else {
                start + self.page_length
            };
            Some((page_index, slice_subrange(slice, start, end)))
        } else {
            None
        }
    }
}

#[verifier::external_type_specification]
#[verifier::external_body]
pub struct ExSystemTimeError(std::time::SystemTimeError);

/// Relies on std::time::SystemTime: the whole seconds the system clock
/// stands after the Unix epoch, or the clock's error when it stands before
/// it. Nothing more is assumed of the clock.
#[verifier::external_body]
fn unix_secs() -> (r: Result<u64, std::time::SystemTimeError>) {
    match std::time::SystemTime::now().duration_since(std::time::SystemTime::UNIX_EPOCH) {
        Ok(d) => Ok(d.as_secs()),
        Err(e) => Err(e),
    }
}

/// Whole hours since the Unix epoch, by the system clock.
pub fn hours_since_epoch() -> (r: Result<u64, std::time::SystemTimeError>)
    ensures
        r matches Ok(h) ==> h <= u64::MAX / 3600,
{
    match unix_secs() {
        Ok(s) => Ok(s / 3600),
        Err(e) => Err(e),
    }
}

#[verifier::external_type_specification]
#[verifier::external_body]
pub struct ExMacaroon(macaroon::Macaroon);

#[verifier::external_type_specification]
#[verifier::external_body]
pub struct ExMacaroonError(macaroon::MacaroonError);

/// Relies on macaroon::Macaroon::deserialize: decodes a serialized bearer
/// credential, in any of the crate's token formats; an empty token is
/// always refused.
#[verifier::external_body]
fn deserialize_macaroon(bytes: &[u8]) -> (r: Result<macaroon::Macaroon, macaroon::MacaroonError>)
    ensures
        bytes@.len() == 0 ==> r is Err,
{
    macaroon::Macaroon::deserialize(bytes)
}

/// Relies on macaroon::Macaroon::identifier: a copy of the identifier bytes
/// the credential was minted with, which carry its authorization scope.
#[verifier::external_body]
fn macaroon_identifier(m: &macaroon::Macaroon) -> (r: Vec<u8>) {
    m.identifier().0
}

/// The read-only authorization scope derived from a decoded capability
/// token: the identifier names the node and role the bearer may act for.
pub struct MacaroonSession {
    pub identifier: Vec<u8>,
}

impl MacaroonSession {
    /// Derive the session scope of a decoded credential; no mutation, no
    /// caching.
    pub fn new(macaroon: &macaroon::Macaroon) -> MacaroonSession {
        MacaroonSession { identifier: macaroon_identifier(macaroon) }
    }
}

/// Decode a hex-encoded capability token. Every failure is the distinct
/// bad-credential kind, never mistakable for a backend failure.
pub fn macaroon_from_hex_str(hex_str: &str) -> (r: Result<macaroon::Macaroon, CoreError>)
    ensures
        parsed_hex(hex_str@) is None ==> r is Err,
        r matches Err(e) ==> e == CoreError::Macaroon,
        r is Ok ==> parsed_hex(hex_str@) is Some,
{
    match crate::hex_utils::to_vec(hex_str) {
        Some(bytes) => match deserialize_macaroon(bytes.as_slice()) {
            Ok(m) => Ok(m),
            Err(_) => Err(CoreError::Macaroon),
        },
        None => Err(CoreError::Macaroon),
    }
}

/// Decode a hex-encoded capability token and derive its session scope.
pub fn macaroon_with_session_from_hex_str(hex_str: &str) -> (r: Result<
    (macaroon::Macaroon, MacaroonSession),
    CoreError,
>)
    ensures
        parsed_hex(hex_str@) is None ==> r is Err,
        r matches Err(e) ==> e == CoreError::Macaroon,
        r is Ok ==> parsed_hex(hex_str@) is Some,
{
    match macaroon_from_hex_str(hex_str) {
        Ok(m) => {
            let session = MacaroonSession::new(&m);
            Ok((m, session))
        },
        Err(e) => Err(e),
    }
}

} // verus!
