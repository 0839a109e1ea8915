//! The shared secret and its outside form.
//!
//! Inside the engine a secret is a sequence of bytes: the key of the keyed
//! hash. Outside it is a text. The bytes of a secret are the UTF-8 encoding of
//! its text, so each form gives back the other.

use crate::hotp::{is_usable_key, usable_key};
use vstd::prelude::*;
use vstd::utf8::*;

verus! {

/// The bytes of the secret whose outside form is `text`.
pub open spec fn secret_bytes(text: Seq<char>) -> Seq<u8> {
    encode_utf8(text)
}

/// The outside form of the secret with the bytes `bytes`.
pub open spec fn external_text(bytes: Seq<u8>) -> Seq<char> {
    decode_utf8(bytes)
}

/// A shared secret. It is viewed as its bytes.
///
/// A secret may be empty or too long to key a code: `is_usable` tells, and the
/// store takes no such secret.
#[derive(Debug)]
pub struct Secret {
    text: String,
}

impl View for Secret {
    type V = Seq<u8>;

    closed spec fn view(&self) -> Seq<u8> {
        secret_bytes(self.text@)
    }
}

impl Clone for Secret {
    fn clone(&self) -> (copy: Secret)
        ensures
            copy@ == self@,
    {
        Secret { text: self.text.clone() }
    }
}

impl Secret {
    /// Reads a secret from its outside form.
    pub fn from_external(raw: &str) -> (secret: Secret)
        ensures
            secret@ == secret_bytes(raw@),
    {
        Secret { text: raw.to_owned() }
    }

    /// Writes the outside form of the secret.
    pub fn to_external(&self) -> (raw: String)
        ensures
            raw@ == external_text(self@),
            secret_bytes(raw@) == self@,
    {
        proof {
            encode_utf8_decode_utf8(self.text@);
        }
        self.text.clone()
    }

    /// The bytes of the secret.
    pub fn as_bytes(&self) -> (bytes: &[u8])
        ensures
            bytes@ == self@,
    {
        self.text.as_str().as_bytes()
    }

    /// Tells whether the secret can key a code: it is not empty, and short
    /// enough for the hash.
    pub fn is_usable(&self) -> (usable: bool)
        ensures
            usable == usable_key(self@),
    {
        is_usable_key(self.as_bytes())
    }
}

/// A text is read back from the bytes that stand for it.
pub proof fn lemma_text_round_trip(text: Seq<char>)
    ensures
        external_text(secret_bytes(text)) == text,
{
    encode_utf8_decode_utf8(text);
}

/// The bytes of a secret are read back from its outside form.
pub proof fn lemma_bytes_round_trip(secret: Secret)
    ensures
        secret_bytes(external_text(secret@)) == secret@,
{
    encode_utf8_decode_utf8(secret.text@);
}

/// Only the empty text stands for the empty secret.
pub proof fn lemma_empty_text_is_empty_secret(text: Seq<char>)
    ensures
        secret_bytes(text).len() == 0 <==> text.len() == 0,
{
    if text.len() > 0 {
        assert(encode_scalar(text[0] as u32).len() > 0);
    }
}

} // verus!
