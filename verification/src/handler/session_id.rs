//! Session ids: sixty-four random bytes in base64.

use vstd::prelude::*;

verus! {

/// The number of random bytes in a session id.
pub const SESSION_ID_BYTES: usize = 64;

/// The standard base64 encoding, with padding, of a sequence of bytes.
pub uninterp spec fn base64_encoding(bytes: Seq<u8>) -> Seq<char>;

/// Overwrites every byte of `key` with a random one, by `fill_bytes` of the
/// thread's generator of `rand`. The length stays; what the bytes are
/// differs from call to call.
#[verifier::external_body]
fn fill_with_random_bytes(key: &mut Vec<u8>)
    ensures
        final(key)@.len() == old(key)@.len(),
{
    rand::RngCore::fill_bytes(&mut rand::thread_rng(), key);
}

/// Encodes bytes in base64 by `encode` of the `base64` crate, as
/// `async_session` hands it on. The text depends on the bytes alone.
#[verifier::external_body]
fn encode_base64(bytes: &Vec<u8>) -> (text: String)
    ensures
        text@ == base64_encoding(bytes@),
{
    async_session::base64::encode(bytes)
}

/// Whether `session_id` is the base64 encoding of some sixty-four bytes.
pub open spec fn is_session_id(session_id: Seq<char>) -> bool {
    exists|key: Seq<u8>| key.len() == SESSION_ID_BYTES && session_id == #[trigger] base64_encoding(key)
}

/// The session id that stands for the given key.
pub fn session_id_of(key: &Vec<u8>) -> (session_id: String)
    ensures
        session_id@ == base64_encoding(key@),
{
    encode_base64(key)
}

/// A fresh session id: sixty-four random bytes, encoded in base64.
pub fn generate_session_id() -> (session_id: String)
    ensures
        is_session_id(session_id@),
{
    let mut key: Vec<u8> = Vec::new();
    let mut count: usize = 0;
    while count < SESSION_ID_BYTES
        invariant
            count <= SESSION_ID_BYTES,
            key@.len() == count,
        decreases SESSION_ID_BYTES - count,
    {
        key.push(0u8);
        count += 1;
    }
    fill_with_random_bytes(&mut key);
    session_id_of(&key)
}

} // verus!
