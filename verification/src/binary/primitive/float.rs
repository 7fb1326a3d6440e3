//! Decoding of floating point numbers.
//!
//! A float is stored as the bytes of its IEEE-754 encoding, least significant
//! first: four bytes for an `f32`, eight for an `f64`.  Every bit pattern is a
//! float, so decoding keeps the bits and fails only when the bytes run out.

use vstd::prelude::*;
use vstd::arithmetic::power2::{pow2, lemma_pow2_adds, lemma_pow2_strictly_increases, lemma2_to64};
use crate::source::Source;
use crate::binary::error::Error;
use crate::binary::primitive::byte::Byte;
use crate::binary::primitive::traits::{lemma_agree, local, Parsed, WasmBinaryGrammar, WasmBinaryParse};
use crate::structure::instr::{F32, F64};

verus! {

broadcast use vstd::seq_lib::lemma_seq_skip_of_skip;

/// The number whose little-endian digits in base 256 are the first `n` bytes
/// of `s`.
pub open spec fn little_endian(s: Seq<u8>, n: nat) -> nat
    decreases n,
{
    if n == 0 {
        0
    } else {
        s[0] as nat + 256 * little_endian(s.skip(1), (n - 1) as nat)
    }
}

/// The grammar of an `f32`: four bytes, least significant first.
pub open spec fn f32_grammar(s: Seq<u8>) -> Parsed<F32> {
    if s.len() < 4 {
        Err(Error::UnexpectedEndOfFile)
    } else {
        Ok((F32(little_endian(s, 4) as u32), 4))
    }
}

/// The grammar of an `f64`: eight bytes, least significant first.
pub open spec fn f64_grammar(s: Seq<u8>) -> Parsed<F64> {
    if s.len() < 8 {
        Err(Error::UnexpectedEndOfFile)
    } else {
        Ok((F64(little_endian(s, 8) as u64), 8))
    }
}

/// Reads `n` bytes and returns the number that they spell, least significant
/// byte first.
fn parse_little_endian(bin: &mut Source, n: usize) -> (r: Result<u64, Error>)
    requires
        n <= 8,
    ensures
        final(bin).beyond() == old(bin).beyond(),
        old(bin)@.len() < n ==> r == Err::<u64, Error>(Error::UnexpectedEndOfFile),
        old(bin)@.len() >= n ==> r == Ok::<u64, Error>(little_endian(old(bin)@, n as nat) as u64)
            && little_endian(old(bin)@, n as nat) < pow2(8 * n as nat)
            && final(bin)@ == old(bin)@.skip(n as int),
    decreases n,
{
    proof {
        lemma2_to64();
    }
    if n == 0 {
        assert(bin@.skip(0) =~= bin@);
        return Ok(0);
    }
    let Byte(low) = Byte::parse(bin)?;
    let high = parse_little_endian(bin, n - 1)?;
    proof {
        lemma_pow2_adds(8, (8 * (n - 1)) as nat);
        if n < 8 {
            lemma_pow2_strictly_increases(8 * n as nat, 64);
        }
    }
    Ok(low as u64 + 256 * high)
}

impl WasmBinaryGrammar for F32 {
    open spec fn grammar(s: Seq<u8>) -> Parsed<F32> {
        f32_grammar(s)
    }
}

impl WasmBinaryParse for F32 {
    fn parse(bin: &mut Source) -> (r: Result<Self, Error>) {
        proof {
            lemma2_to64();
        }
        let bits = parse_little_endian(bin, 4)?;
        Ok(F32(bits as u32))
    }
}

impl WasmBinaryGrammar for F64 {
    open spec fn grammar(s: Seq<u8>) -> Parsed<F64> {
        f64_grammar(s)
    }
}

impl WasmBinaryParse for F64 {
    fn parse(bin: &mut Source) -> (r: Result<Self, Error>) {
        let bits = parse_little_endian(bin, 8)?;
        Ok(F64(bits))
    }
}

/// The number that the first `n` bytes spell is the same in bytes that start
/// in the same way.
pub proof fn lemma_little_endian_agrees(s: Seq<u8>, t: Seq<u8>, n: nat)
    requires
        n <= s.len(),
        n <= t.len(),
        t.take(n as int) == s.take(n as int),
    ensures
        little_endian(t, n) == little_endian(s, n),
    decreases n,
{
    if n > 0 {
        lemma_agree(s, t, 0, n);
        lemma_agree(s, t, 1, n);
        lemma_little_endian_agrees(s.skip(1), t.skip(1), (n - 1) as nat);
    }
}

/// An `f32` is read from its own bytes.
pub proof fn lemma_f32_local(s: Seq<u8>, t: Seq<u8>)
    ensures
        local(s, t, f32_grammar(s), f32_grammar(t)),
{
    if s.len() >= 4 && t.len() >= 4 && t.take(4) == s.take(4) {
        lemma_little_endian_agrees(s, t, 4);
    }
}

/// An `f64` is read from its own bytes.
pub proof fn lemma_f64_local(s: Seq<u8>, t: Seq<u8>)
    ensures
        local(s, t, f64_grammar(s), f64_grammar(t)),
{
    if s.len() >= 8 && t.len() >= 8 && t.take(8) == s.take(8) {
        lemma_little_endian_agrees(s, t, 8);
    }
}

/// The bytes of `bits`, least significant first, `n` of them.
pub open spec fn little_endian_bytes(bits: nat, n: nat) -> Seq<u8>
    decreases n,
{
    if n == 0 {
        Seq::empty()
    } else {
        seq![(bits % 256) as u8] + little_endian_bytes(bits / 256, (n - 1) as nat)
    }
}

/// The bytes of a number spell the number, if there are enough of them.
pub proof fn lemma_little_endian_of_bytes(bits: nat, n: nat)
    requires
        bits < pow2(8 * n),
    ensures
        little_endian_bytes(bits, n).len() == n,
        little_endian(little_endian_bytes(bits, n), n) == bits,
    decreases n,
{
    lemma2_to64();
    if n > 0 {
        lemma_pow2_adds(8, (8 * (n - 1)) as nat);
        let rest = little_endian_bytes(bits / 256, (n - 1) as nat);
        let w = pow2((8 * (n - 1)) as nat);
        assert(bits / 256 < w) by (nonlinear_arith)
            requires
                bits < 256 * w,
        ;
        lemma_little_endian_of_bytes(bits / 256, (n - 1) as nat);
        let all = little_endian_bytes(bits, n);
        assert(all.skip(1) =~= rest);
        assert(all[0] == (bits % 256) as u8);
    }
}

/// No float is changed by decoding: the four bytes of any bit pattern, least
/// significant first, are decoded to the float with that bit pattern.
pub proof fn lemma_f32_keeps_its_bits(bits: u32)
    ensures
        f32_grammar(little_endian_bytes(bits as nat, 4)) == Ok::<(F32, nat), Error>((F32(bits), 4)),
{
    lemma2_to64();
    lemma_little_endian_of_bytes(bits as nat, 4);
}

/// No float is changed by decoding: the eight bytes of any bit pattern, least
/// significant first, are decoded to the float with that bit pattern.
pub proof fn lemma_f64_keeps_its_bits(bits: u64)
    ensures
        f64_grammar(little_endian_bytes(bits as nat, 8)) == Ok::<(F64, nat), Error>((F64(bits), 8)),
{
    lemma2_to64();
    lemma_little_endian_of_bytes(bits as nat, 8);
}

} // verus!
