//! The keyed hash under the codes: HMAC (RFC 2104) over SHA-1.
//!
//! The hash itself is not verified here. It is computed by the `crypto`
//! library of the `rust-crypto` package, and its result is known to the rest
//! of the engine only by name.

use crypto::hmac::Hmac;
use crypto::mac::Mac;
use crypto::sha1::Sha1;
use vstd::prelude::*;

verus! {

/// Length in bytes of an HMAC-SHA1 tag.
pub const TAG_LEN: usize = 20;

/// Length in bytes of the block that SHA-1 works on, which HMAC puts in front
/// of the message.
pub const BLOCK_LEN: u64 = 64;

/// SHA-1 counts the bits of its input in 64 bits, so it takes fewer than
/// 2^61 bytes.
pub const INPUT_LIMIT: u64 = 0x2000_0000_0000_0000;

/// The HMAC-SHA1 tag of `message` under `key`.
pub uninterp spec fn hmac_sha1_tag(key: Seq<u8>, message: Seq<u8>) -> Seq<u8>;

/// Whether HMAC-SHA1 can be computed for a key and a message of these lengths:
/// a long key is hashed by itself, and the message is hashed behind one block.
pub open spec fn hashable(key_len: nat, message_len: nat) -> bool {
    key_len < INPUT_LIMIT && message_len + BLOCK_LEN < INPUT_LIMIT
}

/// Computes the HMAC-SHA1 tag of `message` under `key`.
///
/// Trusted: the body runs `crypto::hmac::Hmac` over `crypto::sha1::Sha1`
/// (`Hmac::new`, `Mac::input`, `Mac::raw_result`). The contract claims that the
/// twenty bytes written depend on the key and the message alone. `Sha1` panics
/// on an input of 2^61 bytes or more, which the precondition leaves out.
#[verifier::external_body]
pub(crate) fn hmac_sha1(key: &[u8], message: &[u8]) -> (tag: [u8; 20])
    requires
        hashable(key@.len(), message@.len()),
    ensures
        tag@ == hmac_sha1_tag(key@, message@),
{
    let mut hmac = Hmac::new(Sha1::new(), key);
    hmac.input(message);
    let mut tag = [0u8; 20];
    hmac.raw_result(&mut tag);
    tag
}

} // verus!
