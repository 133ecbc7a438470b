//! Cryptographically random session-id generation.
//!
//! Always draws from the operating system's CSPRNG (`OsRng`). Should that
//! draw fail, a fallback generator supplied by the caller (the thread-local
//! RNG) is asked, and failing that the id encodes zero bytes instead of
//! panicking.

use vstd::prelude::*;
use crate::hex::{hex_lower, hex_lower_spec, is_lower_hex_char, lemma_hex_lower_shape};
use rand::TryRngCore;

verus! {

/// Length (in bytes) of the random session token before hex encoding.
/// 16 bytes (128 bits) is well beyond brute-force feasibility for the
/// lifetime of any single cookie.
pub const SESSION_ID_BYTES: usize = 16;

/// Fills `buf` from the operating system's CSPRNG
/// (`rand::rngs::OsRng::try_fill_bytes`) and says whether that succeeded.
/// Trusted for nothing about the bytes: they are random, and after a
/// failure their content is whatever the OS left there.
#[verifier::external_body]
fn fill_from_os_rng(buf: &mut [u8; 16]) -> (ok: bool) {
    rand::rngs::OsRng.try_fill_bytes(buf).is_ok()
}

/// The session id of the 16 bytes `bytes`: their lowercase hex encoding.
pub fn session_id_from_bytes(bytes: &[u8; 16]) -> (id: String)
    ensures
        id@ == hex_lower_spec(bytes@),
        id@.len() == 2 * SESSION_ID_BYTES,
        forall|i: int| 0 <= i < id@.len() ==> is_lower_hex_char(#[trigger] id@[i]),
{
    proof {
        lemma_hex_lower_shape(bytes@);
    }
    hex_lower(bytes)
}

/// The sixteen zero bytes used when no random bytes could be drawn.
pub open spec fn zero_bytes() -> Seq<u8> {
    Seq::new(SESSION_ID_BYTES as nat, |i: int| 0u8)
}

/// The bytes of an optional draw, as a sequence.
pub open spec fn draw_view(d: Option<[u8; 16]>) -> Option<Seq<u8>> {
    match d {
        Some(b) => Some(b@),
        None => None,
    }
}

/// The session id for the outcomes of the draws: the hex encoding of the
/// OS generator's bytes; failing those, of the fallback generator's bytes;
/// failing both, of sixteen zero bytes.
pub open spec fn session_id_of_draws(os: Option<Seq<u8>>, fallback: Option<Seq<u8>>) -> Seq<char> {
    match os {
        Some(b) => hex_lower_spec(b),
        None => match fallback {
            Some(b) => hex_lower_spec(b),
            None => hex_lower_spec(zero_bytes()),
        },
    }
}

/// The session id for the outcomes of a draw from the OS generator and of
/// the fallback draw: the OS bytes when there are some, else the fallback
/// bytes, else 32 zeroes (such a cookie matches no registered session and
/// is rejected on the next request).
pub fn session_id_from_draws(os: Option<[u8; 16]>, fallback: Option<[u8; 16]>) -> (id: String)
    ensures
        id@ == session_id_of_draws(draw_view(os), draw_view(fallback)),
        id@.len() == 2 * SESSION_ID_BYTES,
        forall|i: int| 0 <= i < id@.len() ==> is_lower_hex_char(#[trigger] id@[i]),
{
    match os {
        Some(b) => session_id_from_bytes(&b),
        None => match fallback {
            Some(b) => session_id_from_bytes(&b),
            None => {
                let zeros = [0u8; 16];
                assert(zeros@ =~= zero_bytes());
                session_id_from_bytes(&zeros)
            },
        },
    }
}

/// Generate a fresh random session id: a 32-character lowercase hex
/// string encoding 16 bytes drawn from the OS generator. Should that draw
/// fail, `fallback` is asked for 16 bytes (meant for the thread-local
/// generator, which panics when it cannot seed itself from the OS, so the
/// caller supplies it where that panic can be caught); should it give none,
/// the id encodes sixteen zero bytes. Never panics itself.
pub fn generate_session_id_with<F: Fn() -> Option<[u8; 16]>>(fallback: F) -> (id: String)
    requires
        call_requires(fallback, ()),
    ensures
        exists|os: Option<[u8; 16]>, fb: Option<[u8; 16]>|
            (os is None ==> call_ensures(fallback, (), fb)) && (os is Some ==> fb is None) && id@
                == session_id_of_draws(draw_view(os), draw_view(fb)),
        id@.len() == 2 * SESSION_ID_BYTES,
        forall|i: int| 0 <= i < id@.len() ==> is_lower_hex_char(#[trigger] id@[i]),
{
    let mut bytes = [0u8; 16];
    if fill_from_os_rng(&mut bytes) {
        let os = Some(bytes);
        let id = session_id_from_draws(os, None);
        assert(id@ == session_id_of_draws(draw_view(os), draw_view(None)));
        id
    } else {
        let fb = fallback();
        let id = session_id_from_draws(None, fb);
        assert(id@ == session_id_of_draws(draw_view(None), draw_view(fb)));
        id
    }
}

/// Generate a fresh random session id from the OS generator alone: the
/// hex encoding of 16 drawn bytes, or of sixteen zero bytes should the draw
/// fail. Never panics. (`generate_session_id_with` adds a fallback
/// generator.)
pub fn generate_session_id() -> (id: String)
    ensures
        exists|os: Option<[u8; 16]>| id@ == session_id_of_draws(draw_view(os), None),
        id@.len() == 2 * SESSION_ID_BYTES,
        forall|i: int| 0 <= i < id@.len() ==> is_lower_hex_char(#[trigger] id@[i]),
{
    let no_fallback = || -> (r: Option<[u8; 16]>)
        ensures
            r is None,
        { None };
    let id = generate_session_id_with(no_fallback);
    proof {
        let (os, fb) = choose|os: Option<[u8; 16]>, fb: Option<[u8; 16]>|
            (os is None ==> call_ensures(no_fallback, (), fb)) && (os is Some ==> fb is None) && id@
                == session_id_of_draws(draw_view(os), draw_view(fb));
        assert(fb is None);
        assert(draw_view(fb) is None);
        assert(id@ == session_id_of_draws(draw_view(os), None));
    }
    id
}

} // verus!
