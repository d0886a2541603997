//! The decoder: splits a sixteen-bit instruction word into its fields.
//!
//! Decoding is total. Whether a word names an instruction is decided later,
//! when the fields are matched against the instruction table.

use vstd::prelude::*;

verus! {

/// The fields of one instruction word. The word is read as four hexadecimal
/// digits, most significant first.
#[derive(Clone, Copy, Debug, PartialEq, Eq, Structural)]
pub struct Fields {
    /// The word itself.
    pub raw: u16,
    /// First digit: the instruction family.
    pub digit1: u8,
    /// Second digit: the register operand `x`.
    pub x: u8,
    /// Third digit: the register operand `y`.
    pub y: u8,
    /// Fourth digit: the nibble operand `n`.
    pub n: u8,
    /// Low twelve bits: the address operand.
    pub nnn: u16,
    /// Low eight bits: the byte operand.
    pub nn: u8,
}

/// The fields of `op`, by division and remainder.
pub open spec fn fields_of(op: u16) -> Fields {
    Fields {
        raw: op,
        digit1: (op / 4096) as u8,
        x: ((op / 256) % 16) as u8,
        y: ((op / 16) % 16) as u8,
        n: (op % 16) as u8,
        nnn: op % 4096,
        nn: (op % 256) as u8,
    }
}

/// The word made of two consecutive bytes, the first being the high one.
pub open spec fn word_of(high: u8, low: u8) -> u16 {
    (high * 256 + low) as u16
}

/// Joins two bytes into a big-endian word.
pub fn join_bytes(high: u8, low: u8) -> (op: u16)
    ensures
        op == word_of(high, low),
{
    let wide_high: u16 = high as u16;
    let wide_low: u16 = low as u16;
    assert((wide_high << 8) | wide_low == wide_high * 256 + wide_low) by (bit_vector)
        requires
            wide_high < 256,
            wide_low < 256,
    ;
    (wide_high << 8) | wide_low
}

/// Splits an instruction word into its fields.
pub fn decode(op: u16) -> (f: Fields)
    ensures
        f == fields_of(op),
        f.digit1 < 16,
        f.x < 16,
        f.y < 16,
        f.n < 16,
        f.nnn < 4096,
{
    assert((op & 0xF000) >> 12 == op / 4096 && op / 4096 < 16) by (bit_vector);
    assert((op & 0x0F00) >> 8 == (op / 256) % 16) by (bit_vector);
    assert((op & 0x00F0) >> 4 == (op / 16) % 16) by (bit_vector);
    assert(op & 0x000F == op % 16) by (bit_vector);
    assert(op & 0x0FFF == op % 4096) by (bit_vector);
    assert(op & 0x00FF == op % 256) by (bit_vector);
    Fields {
        raw: op,
        digit1: ((op & 0xF000) >> 12) as u8,
        x: ((op & 0x0F00) >> 8) as u8,
        y: ((op & 0x00F0) >> 4) as u8,
        n: (op & 0x000F) as u8,
        nnn: op & 0x0FFF,
        nn: (op & 0x00FF) as u8,
    }
}

/// The fields are the digits of the word: the word is their weighted sum,
/// and the address and byte operands are sums of the lower digits.
pub proof fn lemma_fields_compose(op: u16)
    ensures
        fields_of(op).digit1 < 16,
        fields_of(op).x < 16,
        fields_of(op).y < 16,
        fields_of(op).n < 16,
        op == 4096 * fields_of(op).digit1 + 256 * fields_of(op).x + 16 * fields_of(op).y
            + fields_of(op).n,
        fields_of(op).nnn == 256 * fields_of(op).x + 16 * fields_of(op).y + fields_of(op).n,
        fields_of(op).nn == 16 * fields_of(op).y + fields_of(op).n,
{
    let d1: u16 = op / 4096;
    let x: u16 = (op / 256) % 16;
    let y: u16 = (op / 16) % 16;
    let n: u16 = op % 16;
    assert(d1 < 16 && x < 16 && y < 16 && n < 16 && op == 4096 * d1 + 256 * x + 16 * y + n && op
        % 4096 == 256 * x + 16 * y + n && op % 256 == 16 * y + n) by (bit_vector)
        requires
            d1 == op / 4096,
            x == (op / 256) % 16,
            y == (op / 16) % 16,
            n == op % 16,
    ;
}

} // verus!
