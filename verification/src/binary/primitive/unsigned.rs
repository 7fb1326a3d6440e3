//! Decoding of unsigned integers.
//!
//! Unsigned integers are LEB-128 encoded: each byte carries seven bits of the
//! number, least significant first, and its high bit tells whether another
//! byte follows.  The decoder accepts any number of bytes as long as the
//! number read so far fits the width of its type.

use vstd::prelude::*;
use vstd::arithmetic::power2::{pow2, lemma_pow2_adds, lemma_pow2_pos, lemma_pow2_strictly_increases, lemma2_to64};
use crate::source::Source;
use crate::binary::error::Error;
use crate::binary::primitive::traits::{
    local, map_parsed, parses, Parsed, WasmBinaryGrammar, WasmBinaryParse,
};

verus! {

/// The seven bits of the number that a LEB-128 byte carries.
pub open spec fn payload(byte: u8) -> nat {
    (byte % 128) as nat
}

/// Whether a LEB-128 byte announces another byte.
pub open spec fn continues(byte: u8) -> bool {
    byte >= 128
}

/// The number that the bytes of `s` spell, all of them taken as LEB-128
/// digits: the sum of `payload(s[i])` times 128 to the `i`.
pub open spec fn unsigned_value(s: Seq<u8>) -> nat
    decreases s.len(),
{
    if s.len() == 0 {
        0
    } else {
        unsigned_value(s.drop_last()) + payload(s.last()) * pow2((7 * (s.len() - 1)) as nat)
    }
}

/// Decoding of an unsigned integer of `bits` bits from `s`, after `i` bytes
/// have been accepted.  The byte at `i` is refused if the number spelled up to
/// it no longer fits; it ends the number if its high bit is clear.
pub open spec fn unsigned_leb(bits: nat, s: Seq<u8>, i: nat) -> Parsed<nat>
    decreases s.len() - i,
{
    if i >= s.len() {
        Err(Error::UnexpectedEndOfFile)
    } else if unsigned_value(s.take((i + 1) as int)) >= pow2(bits) {
        Err(Error::OutOfRangeUnsignedInteger)
    } else if !continues(s[i as int]) {
        Ok((unsigned_value(s.take((i + 1) as int)), i + 1))
    } else {
        unsigned_leb(bits, s, i + 1)
    }
}

/// The grammar of an unsigned integer of `bits` bits.
pub open spec fn unsigned_grammar(bits: nat, s: Seq<u8>) -> Parsed<nat> {
    unsigned_leb(bits, s, 0)
}

/// One more byte adds its payload, shifted to its place.
pub proof fn lemma_unsigned_value_step(s: Seq<u8>, i: nat)
    requires
        i < s.len(),
    ensures
        unsigned_value(s.take((i + 1) as int)) == unsigned_value(s.take(i as int)) + payload(s[i as int]) * pow2(7 * i),
{
    assert(s.take((i + 1) as int).drop_last() =~= s.take(i as int));
}

/// `n` digits spell a number below 128 to the `n`.
pub proof fn lemma_unsigned_value_bound(s: Seq<u8>)
    ensures
        unsigned_value(s) < pow2(7 * s.len()),
    decreases s.len(),
{
    if s.len() == 0 {
        lemma2_to64();
    } else {
        let n = (s.len() - 1) as nat;
        lemma_unsigned_value_bound(s.drop_last());
        lemma_pow2_adds(7 * n, 7);
        lemma2_to64();
        let p = payload(s.last());
        let w = pow2(7 * n);
        assert(p * w <= 127 * w) by (nonlinear_arith)
            requires
                p <= 127,
        ;
        assert(w * 128 == 128 * w) by (nonlinear_arith);
    }
}

/// What a successful decoding says of the bytes: the number ends at the first
/// byte from `i` on whose high bit is clear, it is the number that the bytes
/// up to there spell, and it fits.
pub proof fn lemma_unsigned_leb_ok(bits: nat, s: Seq<u8>, i: nat)
    ensures
        unsigned_leb(bits, s, i) matches Ok((v, n)) ==> {
            &&& i < n <= s.len()
            &&& v == unsigned_value(s.take(n as int))
            &&& v < pow2(bits)
            &&& !continues(s[n - 1])
            &&& forall|j: int| i <= j < n - 1 ==> continues(#[trigger] s[j])
        },
    decreases s.len() - i,
{
    if i < s.len() && unsigned_value(s.take((i + 1) as int)) < pow2(bits) && continues(s[i as int]) {
        lemma_unsigned_leb_ok(bits, s, i + 1);
    }
}

/// The number that digits spell does not shrink with more digits.
pub proof fn lemma_unsigned_value_grows(s: Seq<u8>, i: nat, j: nat)
    requires
        i <= j <= s.len(),
    ensures
        unsigned_value(s.take(i as int)) <= unsigned_value(s.take(j as int)),
    decreases j - i,
{
    if i < j {
        lemma_unsigned_value_grows(s, i, (j - 1) as nat);
        lemma_unsigned_value_step(s, (j - 1) as nat);
        lemma_pow2_pos(7 * (j - 1) as nat);
        let p = payload(s[j - 1]);
        let w = pow2(7 * (j - 1) as nat);
        assert(p * w >= 0) by (nonlinear_arith)
            requires
                p >= 0,
                w >= 0,
        ;
    }
}

/// Whether the bytes of `s` up to `n` are one LEB-128 number: the last of
/// them is the first whose high bit is clear.
pub open spec fn ends_at(s: Seq<u8>, n: nat) -> bool {
    &&& 0 < n <= s.len()
    &&& !continues(s[n - 1])
    &&& forall|j: int| 0 <= j < n - 1 ==> continues(#[trigger] s[j])
}

/// The width decides: a LEB-128 number is decoded to the number that its
/// bytes spell if that number fits the width, however many bytes spell it,
/// and is out of range if it does not.
pub proof fn lemma_unsigned_fits_or_fails(bits: nat, s: Seq<u8>, n: nat)
    requires
        ends_at(s, n),
    ensures
        unsigned_value(s.take(n as int)) < pow2(bits) ==> unsigned_grammar(bits, s) == Ok::<(nat, nat), Error>(
            (unsigned_value(s.take(n as int)), n),
        ),
        unsigned_value(s.take(n as int)) >= pow2(bits) ==> unsigned_grammar(bits, s) == Err::<(nat, nat), Error>(
            Error::OutOfRangeUnsignedInteger,
        ),
{
    lemma_unsigned_decides_from(bits, s, n, 0);
}

/// What [`lemma_unsigned_fits_or_fails`] says, for the decoding from the byte
/// at `i` on.
pub proof fn lemma_unsigned_decides_from(bits: nat, s: Seq<u8>, n: nat, i: nat)
    requires
        ends_at(s, n),
        i < n,
    ensures
        unsigned_value(s.take(n as int)) < pow2(bits) ==> unsigned_leb(bits, s, i) == Ok::<(nat, nat), Error>(
            (unsigned_value(s.take(n as int)), n),
        ),
        unsigned_value(s.take(n as int)) >= pow2(bits) && (i == 0 || unsigned_value(s.take(i as int)) < pow2(bits))
            ==> unsigned_leb(bits, s, i) == Err::<(nat, nat), Error>(Error::OutOfRangeUnsignedInteger),
    decreases n - i,
{
    lemma_unsigned_value_grows(s, i + 1, n);
    if i + 1 < n {
        assert(continues(s[i as int]));
        lemma_unsigned_decides_from(bits, s, n, i + 1);
    }
}

/// Two encodings of one number are decoded to the same number.
pub proof fn lemma_unsigned_same_number(bits: nat, a: Seq<u8>, b: Seq<u8>)
    requires
        unsigned_grammar(bits, a) is Ok,
        unsigned_grammar(bits, b) is Ok,
        unsigned_value(a.take(unsigned_grammar(bits, a)->Ok_0.1 as int)) == unsigned_value(
            b.take(unsigned_grammar(bits, b)->Ok_0.1 as int),
        ),
    ensures
        unsigned_grammar(bits, a)->Ok_0.0 == unsigned_grammar(bits, b)->Ok_0.0,
{
    lemma_unsigned_leb_ok(bits, a, 0);
    lemma_unsigned_leb_ok(bits, b, 0);
}

/// The encoding `s` of one number with `extra` more bytes of padding: the
/// last byte announces another, `extra` bytes without payload follow that do
/// the same, and one without payload ends the number.
pub open spec fn padded(s: Seq<u8>, extra: nat) -> Seq<u8> {
    s.drop_last().push((s.last() + 128) as u8) + Seq::new(extra, |i: int| 0x80u8) + seq![0x00u8]
}

/// Bytes without payload do not change the number that the bytes before them
/// spell.
pub proof fn lemma_unsigned_value_of_padding(s: Seq<u8>, n: nat)
    requires
        n <= s.len(),
        forall|j: int| n <= j < s.len() ==> payload(#[trigger] s[j]) == 0,
    ensures
        unsigned_value(s) == unsigned_value(s.take(n as int)),
    decreases s.len() - n,
{
    if n < s.len() {
        lemma_unsigned_value_step(s, n);
        lemma_unsigned_value_of_padding(s, n + 1);
        let w = pow2(7 * n);
        assert(0 * w == 0) by (nonlinear_arith);
    } else {
        assert(s.take(n as int) =~= s);
    }
}

/// The number that the bytes spell depends on their payloads only.
pub proof fn lemma_unsigned_value_of_payloads(a: Seq<u8>, b: Seq<u8>)
    requires
        a.len() == b.len(),
        forall|j: int| 0 <= j < a.len() ==> payload(#[trigger] a[j]) == payload(b[j]),
    ensures
        unsigned_value(a) == unsigned_value(b),
    decreases a.len(),
{
    if a.len() > 0 {
        lemma_unsigned_value_of_payloads(a.drop_last(), b.drop_last());
    }
}

/// Padding is accepted: an encoding that is decoded to a number is decoded to
/// the same number with any number of padding bytes.
pub proof fn lemma_unsigned_padding(bits: nat, s: Seq<u8>, extra: nat)
    requires
        unsigned_grammar(bits, s) is Ok,
    ensures
        ({
            let (value, n) = unsigned_grammar(bits, s)->Ok_0;
            unsigned_grammar(bits, padded(s.take(n as int), extra)) == Ok::<(nat, nat), Error>(
                (value, n + extra + 1),
            )
        }),
{
    lemma_unsigned_leb_ok(bits, s, 0);
    let (value, n) = unsigned_grammar(bits, s)->Ok_0;
    let t = s.take(n as int);
    let p = padded(t, extra);
    let last = (t.last() + 128) as u8;
    assert(t.last() == s[n - 1]);
    assert(t.last() < 128);
    assert(payload(last) == payload(t.last()));
    assert(p.len() == n + extra + 1);
    assert forall|j: int| 0 <= j < n + extra implies continues(#[trigger] p[j]) by {
        if j < n - 1 {
            assert(p[j] == s[j]);
        }
    }
    assert(ends_at(p, n + extra + 1));
    assert forall|j: int| 0 <= j < n implies payload(#[trigger] p.take(n as int)[j]) == payload(t[j]) by {
        if j < n - 1 {
            assert(p[j] == t[j]);
        }
    }
    lemma_unsigned_value_of_payloads(p.take(n as int), t);
    lemma_unsigned_value_of_padding(p, n);
    assert(p.take((n + extra + 1) as int) =~= p);
    lemma_unsigned_fits_or_fails(bits, p, n + extra + 1);
}

/// Padding with a payload is refused: a byte beyond the width that carries
/// payload puts the number out of range.
pub proof fn lemma_unsigned_bad_padding(bits: nat, s: Seq<u8>, i: nat)
    requires
        i < s.len(),
        7 * i >= bits,
        payload(s[i as int]) != 0,
        forall|j: int| 0 <= j < i ==> continues(#[trigger] s[j]),
    ensures
        unsigned_grammar(bits, s) == Err::<(nat, nat), Error>(Error::OutOfRangeUnsignedInteger),
{
    lemma_unsigned_value_step(s, i);
    if 7 * i > bits {
        lemma_pow2_strictly_increases(bits, 7 * i);
    }
    let p = payload(s[i as int]);
    let w = pow2(7 * i);
    assert(p * w >= w) by (nonlinear_arith)
        requires
            p >= 1,
            w >= 0,
    ;
    lemma_unsigned_fails_by(bits, s, i, 0);
}

/// Where the number spelled up to the byte at `i` is out of range and every
/// byte before it announces another, decoding fails as out of range.
pub proof fn lemma_unsigned_fails_by(bits: nat, s: Seq<u8>, i: nat, from: nat)
    requires
        from <= i < s.len(),
        unsigned_value(s.take((i + 1) as int)) >= pow2(bits),
        forall|j: int| 0 <= j < i ==> continues(#[trigger] s[j]),
    ensures
        unsigned_leb(bits, s, from) == Err::<(nat, nat), Error>(Error::OutOfRangeUnsignedInteger),
    decreases i - from,
{
    if from < i {
        assert(continues(s[from as int]));
        lemma_unsigned_fails_by(bits, s, i, from + 1);
    }
}

/// Decoding reads only the bytes of the number: what follows them does not
/// change what is decoded.
pub proof fn lemma_unsigned_reads_its_bytes(bits: nat, s: Seq<u8>, t: Seq<u8>)
    requires
        unsigned_grammar(bits, s) is Ok,
        unsigned_grammar(bits, s)->Ok_0.1 <= t.len(),
        t.take(unsigned_grammar(bits, s)->Ok_0.1 as int) == s.take(unsigned_grammar(bits, s)->Ok_0.1 as int),
    ensures
        unsigned_grammar(bits, t) == unsigned_grammar(bits, s),
{
    lemma_unsigned_leb_ok(bits, s, 0);
    let n = unsigned_grammar(bits, s)->Ok_0.1;
    assert forall|j: int| 0 <= j < n implies #[trigger] t[j] == s[j] by {
        assert(t.take(n as int)[j] == s.take(n as int)[j]);
    }
    assert(ends_at(t, n));
    lemma_unsigned_fits_or_fails(bits, t, n);
}

/// `num_traits::FromPrimitive::from_u8` for `u128`.  Every `u8` is a `u128`,
/// so the conversion never fails and keeps the number.
#[verifier::external_body]
fn u128_from_u8(n: u8) -> (r: Option<u128>)
    ensures
        r == Some(n as u128),
{
    <u128 as num_traits::FromPrimitive>::from_u8(n)
}

/// `num_traits::Zero::zero` for `u128`: the number 0.
#[verifier::external_body]
pub(crate) fn u128_zero() -> (r: u128)
    ensures
        r == 0,
{
    <u128 as num_traits::Zero>::zero()
}

/// The low seven bits of `byte`, widened.
pub(crate) fn payload_of(byte: u8) -> (r: u128)
    ensures
        r == payload(byte),
        r < 128,
{
    assert(byte & 0x7F == byte % 128) by (bit_vector);
    match u128_from_u8(byte & 0x7F) {
        Some(val) => val,
        None => 0,
    }
}

/// Whether the high bit of `byte` is set.
pub(crate) fn continues_of(byte: u8) -> (r: bool)
    ensures
        r == continues(byte),
{
    assert((byte & 0x80 != 0) == (byte >= 128)) by (bit_vector);
    byte & 0x80 != 0
}

/// Two to the `bits`, for the widths that the format uses.
pub(crate) fn limit_of(bits: u32) -> (r: u128)
    requires
        bits == 8 || bits == 16 || bits == 32 || bits == 64,
    ensures
        r == pow2(bits as nat),
{
    proof {
        lemma2_to64();
    }
    if bits == 8 {
        0x100
    } else if bits == 16 {
        0x1_0000
    } else if bits == 32 {
        0x1_0000_0000
    } else {
        0x1_0000_0000_0000_0000
    }
}

/// Decodes an unsigned LEB-128 integer of `bits` bits.
pub fn parse_unsigned_leb_128(bin: &mut Source, bits: u32) -> (r: Result<u64, Error>)
    requires
        bits == 8 || bits == 16 || bits == 32 || bits == 64,
    ensures
        parses(
            *old(bin),
            *final(bin),
            r,
            map_parsed(unsigned_grammar(bits as nat, old(bin)@), |v: nat| v as u64),
        ),
        r matches Ok(v) ==> v < pow2(bits as nat),
{
    let limit = limit_of(bits);
    let mut result: u128 = u128_zero();
    // 128 to the number of bytes read, as long as that is below the limit
    let mut scale: u128 = 1;
    let mut padding = false;
    let ghost s = bin@;
    let ghost mut i: nat = 0;
    proof {
        lemma2_to64();
        assert(s.take(0) =~= Seq::<u8>::empty());
    }
    loop
        invariant
            bits == 8 || bits == 16 || bits == 32 || bits == 64,
            s == old(bin)@,
            limit == pow2(bits as nat),
            bin.beyond() == old(bin).beyond(),
            i <= s.len(),
            bin@ == s.skip(i as int),
            result == unsigned_value(s.take(i as int)),
            result < limit,
            padding <==> 7 * i >= bits,
            !padding ==> scale == pow2(7 * i),
            unsigned_grammar(bits as nat, s) == unsigned_leb(bits as nat, s, i),
        decreases s.len() - i,
    {
        let byte = match bin.next() {
            Some(byte) => byte,
            None => {
                return Err(Error::UnexpectedEndOfFile);
            },
        };
        let val = payload_of(byte);
        proof {
            lemma_unsigned_value_step(s, i);
            lemma_pow2_pos(7 * i);
            assert(bin@ =~= s.skip((i + 1) as int));
            assert(byte == s[i as int]);
        }
        if padding {
            proof {
                if 7 * i > bits {
                    lemma_pow2_strictly_increases(bits as nat, 7 * i);
                }
                let w = pow2(7 * i);
                assert(val >= 1 ==> val * w >= w) by (nonlinear_arith);
                assert(val == 0 ==> val * w == 0) by (nonlinear_arith);
            }
            if val != 0 {
                return Err(Error::OutOfRangeUnsignedInteger);
            }
        } else {
            proof {
                // 7 * i < bits <= 64, so scale and the sum stay far below 2 to the 128
                lemma2_to64();
                lemma_pow2_strictly_increases(7 * i, 64);
                lemma_unsigned_value_bound(s.take(i as int));
                assert(val * scale <= 127 * scale) by (nonlinear_arith)
                    requires
                        val <= 127,
                ;
                lemma_pow2_adds(7 * i, 7);
                assert(pow2(7 * i) * 128 == scale * 128);
            }
            let sum = result + val * scale;
            if sum >= limit {
                return Err(Error::OutOfRangeUnsignedInteger);
            }
            result = sum;
            scale = scale * 128;
            padding = scale >= limit;
            proof {
                // scale is now 2 to the 7 * (i + 1): it reaches the limit exactly when
                // 7 * (i + 1) reaches the width
                if 7 * (i + 1) >= bits {
                    if 7 * (i + 1) > bits {
                        lemma_pow2_strictly_increases(bits as nat, 7 * (i + 1));
                    }
                } else {
                    lemma_pow2_strictly_increases(7 * (i + 1), bits as nat);
                }
            }
        }
        proof {
            i = i + 1;
        }
        if !continues_of(byte) {
            proof {
                lemma2_to64();
            }
            return Ok(result as u64);
        }
    }
}

/// The grammar of a `u8`.
pub open spec fn u8_grammar(s: Seq<u8>) -> Parsed<u8> {
    map_parsed(unsigned_grammar(8, s), |v: nat| v as u8)
}

impl WasmBinaryGrammar for u8 {
    open spec fn grammar(s: Seq<u8>) -> Parsed<u8> {
        u8_grammar(s)
    }
}

impl WasmBinaryParse for u8 {
    fn parse(bin: &mut Source) -> (r: Result<Self, Error>) {
        proof {
            lemma2_to64();
            lemma_unsigned_leb_ok(8, bin@, 0);
        }
        match parse_unsigned_leb_128(bin, 8) {
            Ok(v) => Ok(v as u8),
            Err(e) => Err(e),
        }
    }
}

/// The grammar of a `u16`.
pub open spec fn u16_grammar(s: Seq<u8>) -> Parsed<u16> {
    map_parsed(unsigned_grammar(16, s), |v: nat| v as u16)
}

impl WasmBinaryGrammar for u16 {
    open spec fn grammar(s: Seq<u8>) -> Parsed<u16> {
        u16_grammar(s)
    }
}

impl WasmBinaryParse for u16 {
    fn parse(bin: &mut Source) -> (r: Result<Self, Error>) {
        proof {
            lemma2_to64();
            lemma_unsigned_leb_ok(16, bin@, 0);
        }
        match parse_unsigned_leb_128(bin, 16) {
            Ok(v) => Ok(v as u16),
            Err(e) => Err(e),
        }
    }
}

/// The grammar of a `u32`.
pub open spec fn u32_grammar(s: Seq<u8>) -> Parsed<u32> {
    map_parsed(unsigned_grammar(32, s), |v: nat| v as u32)
}

impl WasmBinaryGrammar for u32 {
    open spec fn grammar(s: Seq<u8>) -> Parsed<u32> {
        u32_grammar(s)
    }
}

impl WasmBinaryParse for u32 {
    fn parse(bin: &mut Source) -> (r: Result<Self, Error>) {
        proof {
            lemma2_to64();
            lemma_unsigned_leb_ok(32, bin@, 0);
        }
        match parse_unsigned_leb_128(bin, 32) {
            Ok(v) => Ok(v as u32),
            Err(e) => Err(e),
        }
    }
}

/// The grammar of a `u64`.
pub open spec fn u64_grammar(s: Seq<u8>) -> Parsed<u64> {
    map_parsed(unsigned_grammar(64, s), |v: nat| v as u64)
}

impl WasmBinaryGrammar for u64 {
    open spec fn grammar(s: Seq<u8>) -> Parsed<u64> {
        u64_grammar(s)
    }
}

impl WasmBinaryParse for u64 {
    fn parse(bin: &mut Source) -> (r: Result<Self, Error>) {
        proof {
            lemma2_to64();
        }
        match parse_unsigned_leb_128(bin, 64) {
            Ok(v) => Ok(v),
            Err(e) => Err(e),
        }
    }
}

/// A `u32` is read from its own bytes.
pub proof fn lemma_u32_local(s: Seq<u8>, t: Seq<u8>)
    ensures
        local(s, t, u32_grammar(s), u32_grammar(t)),
{
    lemma_unsigned_leb_ok(32, s, 0);
    if u32_grammar(s) is Ok {
        let n = u32_grammar(s)->Ok_0.1;
        if n <= t.len() && t.take(n as int) == s.take(n as int) {
            lemma_unsigned_reads_its_bytes(32, s, t);
        }
    }
}

} // verus!
