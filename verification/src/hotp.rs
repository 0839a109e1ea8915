//! Counter-based one-time codes: HOTP (RFC 4226).

use crate::error::EngineError;
use crate::mac::{hmac_sha1, hmac_sha1_tag, INPUT_LIMIT, TAG_LEN};
use vstd::prelude::*;
use vstd::string::{StrSliceExecFns, StringExecFns};

verus! {

/// Number of decimal digits in a code.
pub const CODE_DIGITS: usize = 6;

/// Ten to the power of `CODE_DIGITS`.
pub const CODE_MODULUS: u32 = 1_000_000;

/// The number that the bytes `block` spell in base 256, first byte highest.
pub open spec fn big_endian_value(block: Seq<u8>) -> nat
    decreases block.len(),
{
    if block.len() == 0 {
        0
    } else {
        big_endian_value(block.drop_last()) * 256 + block.last() as nat
    }
}

/// The eight bytes that HOTP hashes for `counter`: the counter in base 256,
/// first byte highest.
pub open spec fn counter_block(counter: u64) -> Seq<u8> {
    seq![
        (counter / 0x100_0000_0000_0000 % 256) as u8,
        (counter / 0x1_0000_0000_0000 % 256) as u8,
        (counter / 0x100_0000_0000 % 256) as u8,
        (counter / 0x1_0000_0000 % 256) as u8,
        (counter / 0x100_0000 % 256) as u8,
        (counter / 0x1_0000 % 256) as u8,
        (counter / 0x100 % 256) as u8,
        (counter % 256) as u8,
    ]
}

/// Writes `counter` as eight bytes, first byte highest.
pub fn encode_counter(counter: u64) -> (block: [u8; 8])
    ensures
        block@ == counter_block(counter),
{
    let block: [u8; 8] = [
        (counter >> 56) as u8,
        ((counter >> 48) & 0xff) as u8,
        ((counter >> 40) & 0xff) as u8,
        ((counter >> 32) & 0xff) as u8,
        ((counter >> 24) & 0xff) as u8,
        ((counter >> 16) & 0xff) as u8,
        ((counter >> 8) & 0xff) as u8,
        (counter & 0xff) as u8,
    ];
    assert(counter >> 56 == counter / 0x100_0000_0000_0000 % 256) by (bit_vector);
    assert((counter >> 48) & 0xff == counter / 0x1_0000_0000_0000 % 256) by (bit_vector);
    assert((counter >> 40) & 0xff == counter / 0x100_0000_0000 % 256) by (bit_vector);
    assert((counter >> 32) & 0xff == counter / 0x1_0000_0000 % 256) by (bit_vector);
    assert((counter >> 24) & 0xff == counter / 0x100_0000 % 256) by (bit_vector);
    assert((counter >> 16) & 0xff == counter / 0x1_0000 % 256) by (bit_vector);
    assert((counter >> 8) & 0xff == counter / 0x100 % 256) by (bit_vector);
    assert(counter & 0xff == counter % 256) by (bit_vector);
    assert(block@ =~= counter_block(counter));
    block
}

/// Where dynamic truncation starts to read: the low four bits of the last
/// byte of the tag.
pub open spec fn truncation_offset(tag: Seq<u8>) -> int {
    tag.last() as int % 16
}

/// The dynamic truncation of a tag: the four bytes from `truncation_offset` on,
/// read as a number in base 256 with the first byte highest, without the top
/// bit. It is below 2^31.
pub open spec fn truncated_value(tag: Seq<u8>) -> nat {
    let at: int = truncation_offset(tag);
    big_endian_value(tag.subrange(at, at + 4)) % 0x8000_0000
}

/// The value of four bytes in base 256, written out.
pub proof fn lemma_big_endian_four(block: Seq<u8>)
    requires
        block.len() == 4,
    ensures
        big_endian_value(block) == block[0] * 0x100_0000 + block[1] * 0x1_0000 + block[2] * 0x100
            + block[3],
{
    let three = block.drop_last();
    let two = three.drop_last();
    let one = two.drop_last();
    assert(big_endian_value(one.drop_last()) == 0);
    assert(big_endian_value(one) == block[0]);
    assert(big_endian_value(two) == block[0] * 256 + block[1]);
    assert(big_endian_value(three) == (block[0] * 256 + block[1]) * 256 + block[2]);
}

/// Truncates a tag dynamically to a number below 2^31.
pub fn dynamic_truncate(tag: &[u8; 20]) -> (value: u32)
    ensures
        value == truncated_value(tag@),
        value < 0x8000_0000,
{
    let last: u8 = tag[TAG_LEN - 1];
    let at: usize = (last & 0x0f) as usize;
    assert(last & 0x0f == last % 16) by (bit_vector);
    let b0: u8 = tag[at];
    let b1: u8 = tag[at + 1];
    let b2: u8 = tag[at + 2];
    let b3: u8 = tag[at + 3];
    let value: u32 = ((b0 & 0x7f) as u32) << 24 | (b1 as u32) << 16 | (b2 as u32) << 8
        | (b3 as u32);
    proof {
        lemma_big_endian_four(tag@.subrange(at as int, at + 4));
        assert(((b0 & 0x7f) as u32) << 24 | (b1 as u32) << 16 | (b2 as u32) << 8 | (b3 as u32) == (
        (b0 as u32) * 0x100_0000 + (b1 as u32) * 0x1_0000 + (b2 as u32) * 0x100 + (b3 as u32))
            % 0x8000_0000) by (bit_vector);
    }
    value
}

/// The character of the decimal digit `d`.
pub open spec fn digit_char(d: nat) -> char {
    (48 + d) as char
}

/// The last `width` decimal digits of `value`, highest first: `value` written
/// in decimal and filled up with zeros on the left, where it is below ten to
/// the power of `width`.
pub open spec fn zero_padded(value: nat, width: nat) -> Seq<char>
    decreases width,
{
    if width == 0 {
        Seq::empty()
    } else {
        zero_padded(value / 10, (width - 1) as nat).push(digit_char(value % 10))
    }
}

/// Ten to the power of `n`.
pub open spec fn pow10(n: nat) -> nat
    decreases n,
{
    if n == 0 {
        1
    } else {
        10 * pow10((n - 1) as nat)
    }
}

/// Every power of ten is at least one.
pub proof fn lemma_pow10_positive(n: nat)
    ensures
        pow10(n) >= 1,
    decreases n,
{
    if n > 0 {
        lemma_pow10_positive((n - 1) as nat);
    }
}

/// The text of one decimal digit.
fn digit_text(d: u32) -> (text: &'static str)
    requires
        d < 10,
    ensures
        text@ == seq![digit_char(d as nat)],
{
    let digits = "0123456789";
    proof {
        reveal_strlit("0123456789");
    }
    let text = digits.substring_ascii(d as usize, d as usize + 1);
    assert(text@ =~= seq![digit_char(d as nat)]);
    text
}

/// Writes the last six decimal digits of `value`, highest first.
pub fn format_code(value: u32) -> (code: String)
    ensures
        code@ == zero_padded(value as nat, CODE_DIGITS as nat),
{
    let mut code = String::new();
    let mut scale: u32 = CODE_MODULUS;
    let mut written: usize = 0;
    assert(pow10(6) == 1_000_000) by {
        reveal_with_fuel(pow10, 7);
    }
    while written < CODE_DIGITS
        invariant
            written <= CODE_DIGITS,
            scale == pow10((CODE_DIGITS - written) as nat),
            scale <= CODE_MODULUS,
            code@ == zero_padded(value as nat / scale as nat, written as nat),
        decreases CODE_DIGITS - written,
    {
        let ghost above: nat = scale as nat;
        proof {
            lemma_pow10_positive((CODE_DIGITS - written - 1) as nat);
        }
        scale = scale / 10;
        let digit: u32 = value / scale % 10;
        proof {
            assert(above == 10 * scale);
            vstd::arithmetic::div_mod::lemma_div_denominator(value as int, scale as int, 10);
            assert(value as nat / scale as nat / 10 == value as nat / above);
        }
        code.append(digit_text(digit));
        written = written + 1;
    }
    assert(value as nat / scale as nat == value as nat) by (nonlinear_arith)
        requires
            scale == 1,
    ;
    code
}

/// The code that a tag stands for: its dynamic truncation, reduced to six
/// decimal digits and filled up with zeros on the left.
pub open spec fn code_of_tag(tag: Seq<u8>) -> Seq<char> {
    zero_padded(truncated_value(tag) % (CODE_MODULUS as nat), CODE_DIGITS as nat)
}

/// Derives the six-digit code from an HMAC-SHA1 tag.
pub fn code_from_tag(tag: &[u8; 20]) -> (code: String)
    ensures
        code@ == code_of_tag(tag@),
{
    format_code(dynamic_truncate(tag) % CODE_MODULUS)
}

/// Whether `key` can key a code: it is not empty, and short enough for SHA-1.
pub open spec fn usable_key(key: Seq<u8>) -> bool {
    0 < key.len() < INPUT_LIMIT
}

/// Tells whether `key` can key a code.
pub fn is_usable_key(key: &[u8]) -> (usable: bool)
    ensures
        usable == usable_key(key@),
{
    key.len() > 0 && (key.len() as u64) < INPUT_LIMIT
}

/// The HOTP code of `counter` under `key`: the code of the HMAC-SHA1 tag of
/// the counter's eight bytes.
pub open spec fn hotp_code(key: Seq<u8>, counter: u64) -> Seq<char> {
    code_of_tag(hmac_sha1_tag(key, counter_block(counter)))
}

/// Derives the HOTP code of `counter` under `key`.
///
/// Fails with `InvalidSecret` exactly when the key is not usable.
pub fn hotp(key: &[u8], counter: u64) -> (result: Result<String, EngineError>)
    ensures
        match result {
            Ok(code) => usable_key(key@) && code@ == hotp_code(key@, counter),
            Err(error) => !usable_key(key@) && error == EngineError::InvalidSecret,
        },
{
    if !is_usable_key(key) {
        return Err(EngineError::InvalidSecret);
    }
    let block = encode_counter(counter);
    let tag = hmac_sha1(key, block.as_slice());
    Ok(code_from_tag(&tag))
}

/// Appending a byte multiplies the value by 256 and adds the byte.
pub proof fn lemma_big_endian_push(block: Seq<u8>, byte: u8)
    ensures
        big_endian_value(block.push(byte)) == big_endian_value(block) * 256 + byte,
{
    assert(block.push(byte).drop_last() =~= block);
}

/// The block of a counter has eight bytes and spells the counter: no two
/// counters share a block.
pub proof fn lemma_counter_block_spells_counter(counter: u64)
    ensures
        counter_block(counter).len() == 8,
        big_endian_value(counter_block(counter)) == counter,
{
    let block = counter_block(counter);
    let b1 = Seq::<u8>::empty().push(block[0]);
    let b2 = b1.push(block[1]);
    let b3 = b2.push(block[2]);
    let b4 = b3.push(block[3]);
    let b5 = b4.push(block[4]);
    let b6 = b5.push(block[5]);
    let b7 = b6.push(block[6]);
    assert(block =~= b7.push(block[7]));
    assert(big_endian_value(b1) == counter / 0x100_0000_0000_0000) by {
        lemma_big_endian_push(Seq::<u8>::empty(), block[0]);
        assert(counter / 0x100_0000_0000_0000 % 256 == counter / 0x100_0000_0000_0000)
            by (bit_vector);
    }
    assert(big_endian_value(b2) == counter / 0x1_0000_0000_0000) by {
        lemma_big_endian_push(b1, block[1]);
        assert(counter / 0x100_0000_0000_0000 * 256 + counter / 0x1_0000_0000_0000 % 256 == counter
            / 0x1_0000_0000_0000) by (bit_vector);
    }
    assert(big_endian_value(b3) == counter / 0x100_0000_0000) by {
        lemma_big_endian_push(b2, block[2]);
        assert(counter / 0x1_0000_0000_0000 * 256 + counter / 0x100_0000_0000 % 256 == counter
            / 0x100_0000_0000) by (bit_vector);
    }
    assert(big_endian_value(b4) == counter / 0x1_0000_0000) by {
        lemma_big_endian_push(b3, block[3]);
        assert(counter / 0x100_0000_0000 * 256 + counter / 0x1_0000_0000 % 256 == counter
            / 0x1_0000_0000) by (bit_vector);
    }
    assert(big_endian_value(b5) == counter / 0x100_0000) by {
        lemma_big_endian_push(b4, block[4]);
        assert(counter / 0x1_0000_0000 * 256 + counter / 0x100_0000 % 256 == counter / 0x100_0000)
            by (bit_vector);
    }
    assert(big_endian_value(b6) == counter / 0x1_0000) by {
        lemma_big_endian_push(b5, block[5]);
        assert(counter / 0x100_0000 * 256 + counter / 0x1_0000 % 256 == counter / 0x1_0000)
            by (bit_vector);
    }
    assert(big_endian_value(b7) == counter / 0x100) by {
        lemma_big_endian_push(b6, block[6]);
        assert(counter / 0x1_0000 * 256 + counter / 0x100 % 256 == counter / 0x100)
            by (bit_vector);
    }
    assert(big_endian_value(block) == counter) by {
        lemma_big_endian_push(b7, block[7]);
        assert(counter / 0x100 * 256 + counter % 256 == counter) by (bit_vector);
    }
}

/// The number that decimal digits spell, highest digit first.
pub open spec fn decimal_value(digits: Seq<char>) -> int
    decreases digits.len(),
{
    if digits.len() == 0 {
        0
    } else {
        decimal_value(digits.drop_last()) * 10 + (digits.last() as int - 48)
    }
}

/// A zero-padded number has exactly `width` characters, each a decimal digit,
/// and they spell the number modulo ten to the power of `width`: a number
/// below that power is read back unchanged.
pub proof fn lemma_zero_padded_spells_value(value: nat, width: nat)
    ensures
        zero_padded(value, width).len() == width,
        forall|i: int| 0 <= i < width ==> '0' <= #[trigger] zero_padded(value, width)[i] <= '9',
        decimal_value(zero_padded(value, width)) == value % pow10(width),
    decreases width,
{
    if width > 0 {
        let shorter = zero_padded(value / 10, (width - 1) as nat);
        lemma_zero_padded_spells_value(value / 10, (width - 1) as nat);
        lemma_pow10_positive((width - 1) as nat);
        assert(zero_padded(value, width).drop_last() =~= shorter);
        vstd::arithmetic::div_mod::lemma_mod_breakdown(
            value as int,
            10,
            pow10((width - 1) as nat) as int,
        );
    }
}

/// Every code has six characters, each a decimal digit, and spells the
/// truncated value modulo one million.
pub proof fn lemma_code_of_tag_spells_value(tag: Seq<u8>)
    ensures
        code_of_tag(tag).len() == CODE_DIGITS,
        forall|i: int| 0 <= i < CODE_DIGITS ==> '0' <= #[trigger] code_of_tag(tag)[i] <= '9',
        decimal_value(code_of_tag(tag)) == truncated_value(tag) % 1_000_000,
{
    lemma_zero_padded_spells_value(truncated_value(tag) % 1_000_000, 6);
    assert(pow10(6) == 1_000_000) by {
        reveal_with_fuel(pow10, 7);
    }
}

} // verus!
