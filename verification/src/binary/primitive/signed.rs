//! Decoding of signed integers.
//!
//! Signed integers are LEB-128 encoded like unsigned ones; the sign is bit 6
//! of the last byte, and the number is the two's complement reading of all
//! the digits.  The decoder accepts any number of bytes as long as the number
//! read so far fits the width of its type.

use vstd::prelude::*;
use vstd::arithmetic::power2::{pow2, lemma_pow2_adds, lemma_pow2_pos, lemma_pow2_strictly_increases, lemma2_to64};
use crate::source::Source;
use crate::binary::error::Error;
use crate::binary::primitive::traits::{local, map_parsed, parses, Parsed, WasmBinaryGrammar, WasmBinaryParse};
use crate::binary::primitive::unsigned::{payload, continues, unsigned_value, payload_of, continues_of, limit_of,
    ends_at, u128_zero, lemma_unsigned_value_step, lemma_unsigned_value_bound, lemma_unsigned_value_of_payloads};

verus! {

/// Whether the digits of `s` spell a negative number: bit 6 of the last one.
pub open spec fn negative(s: Seq<u8>) -> bool {
    s.len() > 0 && payload(s.last()) >= 64
}

/// The number that the bytes of `s` spell, all of them taken as LEB-128
/// digits of a two's complement number of `7 * s.len()` bits.
pub open spec fn signed_value(s: Seq<u8>) -> int {
    if negative(s) {
        unsigned_value(s) - pow2(7 * s.len())
    } else {
        unsigned_value(s) as int
    }
}

/// Whether `v` is a two's complement number of `bits` bits.
pub open spec fn signed_fits(bits: nat, v: int) -> bool {
    -pow2((bits - 1) as nat) <= v < pow2((bits - 1) as nat)
}

/// Decoding of a signed integer of `bits` bits from `s`, after `i` bytes have
/// been accepted.  The byte at `i` is refused if the number spelled up to it
/// no longer fits; it ends the number if its high bit is clear.
pub open spec fn signed_leb(bits: nat, s: Seq<u8>, i: nat) -> Parsed<int>
    decreases s.len() - i,
{
    if i >= s.len() {
        Err(Error::UnexpectedEndOfFile)
    } else if !signed_fits(bits, signed_value(s.take((i + 1) as int))) {
        Err(Error::OutOfRangeSignedInteger)
    } else if !continues(s[i as int]) {
        Ok((signed_value(s.take((i + 1) as int)), i + 1))
    } else {
        signed_leb(bits, s, i + 1)
    }
}

/// The grammar of a signed integer of `bits` bits.
pub open spec fn signed_grammar(bits: nat, s: Seq<u8>) -> Parsed<int> {
    signed_leb(bits, s, 0)
}

/// What a successful decoding says of the bytes: the number ends at the first
/// byte from `i` on whose high bit is clear, it is the number that the bytes
/// up to there spell, and it fits.
pub proof fn lemma_signed_leb_ok(bits: nat, s: Seq<u8>, i: nat)
    ensures
        signed_leb(bits, s, i) matches Ok((v, n)) ==> {
            &&& i < n <= s.len()
            &&& v == signed_value(s.take(n as int))
            &&& signed_fits(bits, v)
            &&& !continues(s[n - 1])
            &&& forall|j: int| i <= j < n - 1 ==> continues(#[trigger] s[j])
        },
    decreases s.len() - i,
{
    if i < s.len() && signed_fits(bits, signed_value(s.take((i + 1) as int))) && continues(s[i as int]) {
        lemma_signed_leb_ok(bits, s, i + 1);
    }
}

/// The sign of a digit sequence as a number: 1 if negative, else 0.
pub open spec fn sign_bit(s: Seq<u8>) -> int {
    if negative(s) {
        1
    } else {
        0
    }
}

/// One more digit changes the number by a multiple of 128 to the `i`: the new
/// digit takes the place of the old sign.
pub proof fn lemma_signed_value_step(s: Seq<u8>, i: nat)
    requires
        i < s.len(),
    ensures
        signed_value(s.take((i + 1) as int)) == signed_value(s.take(i as int)) + pow2(7 * i) * (sign_bit(
            s.take(i as int),
        ) + payload(s[i as int]) - 128 * sign_bit(s.take((i + 1) as int))),
{
    lemma_unsigned_value_step(s, i);
    lemma_pow2_adds(7 * i, 7);
    lemma2_to64();
    let w = pow2(7 * i) as int;
    let p = payload(s[i as int]) as int;
    let a = sign_bit(s.take(i as int));
    let b = sign_bit(s.take((i + 1) as int));
    assert(s.take(i as int).len() == i);
    assert(s.take((i + 1) as int).len() == i + 1);
    assert(pow2(7 * (i + 1)) == w * 128);
    assert(w * (a + p - 128 * b) == w * a + p * w - (w * 128) * b) by (nonlinear_arith);
    assert(w * 1 == w && w * 0 == 0) by (nonlinear_arith);
}

/// `n` digits spell a two's complement number of `7 * n` bits.
pub proof fn lemma_signed_value_bound(s: Seq<u8>)
    requires
        s.len() > 0,
    ensures
        -pow2((7 * s.len() - 1) as nat) <= signed_value(s) < pow2((7 * s.len() - 1) as nat),
{
    let n = (s.len() - 1) as nat;
    lemma_unsigned_value_bound(s.drop_last());
    lemma_pow2_adds(7 * n, 6);
    lemma_pow2_adds(7 * n, 7);
    lemma2_to64();
    let p = payload(s.last()) as int;
    let w = pow2(7 * n) as int;
    let low = unsigned_value(s.drop_last()) as int;
    assert(unsigned_value(s) == low + p * w);
    assert(pow2((7 * s.len() - 1) as nat) == w * 64);
    assert(pow2(7 * s.len()) == w * 128);
    if p >= 64 {
        assert(p * w >= 64 * w) by (nonlinear_arith)
            requires
                p >= 64,
                w >= 0,
        ;
        assert(p * w <= 127 * w) by (nonlinear_arith)
            requires
                p <= 127,
                w >= 0,
        ;
    } else {
        assert(p * w <= 63 * w) by (nonlinear_arith)
            requires
                p <= 63,
                w >= 0,
        ;
        assert(p * w >= 0) by (nonlinear_arith)
            requires
                p >= 0,
                w >= 0,
        ;
    }
}

/// Where a number fits, the numbers that its first digits spell fit too.
pub proof fn lemma_signed_prefix_fits(bits: nat, s: Seq<u8>, i: nat, n: nat)
    requires
        bits >= 1,
        1 <= i <= n <= s.len(),
        signed_fits(bits, signed_value(s.take(n as int))),
    ensures
        signed_fits(bits, signed_value(s.take(i as int))),
    decreases n - i,
{
    if i < n {
        lemma_signed_prefix_fits(bits, s, i + 1, n);
        lemma_signed_value_bound(s.take(i as int));
        lemma_signed_value_step(s, i);
        let w = pow2(7 * i) as int;
        let half = pow2((7 * i - 1) as nat) as int;
        lemma_pow2_adds((7 * i - 1) as nat, 1);
        lemma2_to64();
        assert(w == 2 * half);
        let d = sign_bit(s.take(i as int)) + payload(s[i as int]) - 128 * sign_bit(s.take((i + 1) as int));
        if 7 * i <= bits {
            if 7 * i < bits {
                lemma_pow2_strictly_increases((7 * i - 1) as nat, (bits - 1) as nat);
            }
        } else {
            // the digit at i is beyond the width: it only repeats the sign
            if 7 * i - 1 > bits {
                lemma_pow2_strictly_increases(bits, (7 * i - 1) as nat);
            }
            lemma_pow2_strictly_increases((bits - 1) as nat, bits);
            assert(d >= 1 ==> w * d >= w) by (nonlinear_arith)
                requires
                    w >= 0,
            ;
            assert(d <= -1 ==> w * d <= -w) by (nonlinear_arith)
                requires
                    w >= 0,
            ;
            assert(d == 0 ==> w * d == 0) by (nonlinear_arith);
        }
    }
}

/// The width decides: a LEB-128 number is decoded to the number that its
/// bytes spell if that number fits the width, however many bytes spell it,
/// and is out of range if it does not.
pub proof fn lemma_signed_fits_or_fails(bits: nat, s: Seq<u8>, n: nat)
    requires
        bits >= 1,
        ends_at(s, n),
    ensures
        signed_fits(bits, signed_value(s.take(n as int))) ==> signed_grammar(bits, s) == Ok::<(int, nat), Error>(
            (signed_value(s.take(n as int)), n),
        ),
        !signed_fits(bits, signed_value(s.take(n as int))) ==> signed_grammar(bits, s) == Err::<(int, nat), Error>(
            Error::OutOfRangeSignedInteger,
        ),
{
    lemma_signed_decides_from(bits, s, n, 0);
}

/// What [`lemma_signed_fits_or_fails`] says, for the decoding from the byte at
/// `i` on.
pub proof fn lemma_signed_decides_from(bits: nat, s: Seq<u8>, n: nat, i: nat)
    requires
        bits >= 1,
        ends_at(s, n),
        i < n,
    ensures
        signed_fits(bits, signed_value(s.take(n as int))) ==> signed_leb(bits, s, i) == Ok::<(int, nat), Error>(
            (signed_value(s.take(n as int)), n),
        ),
        !signed_fits(bits, signed_value(s.take(n as int))) ==> signed_leb(bits, s, i) == Err::<(int, nat), Error>(
            Error::OutOfRangeSignedInteger,
        ),
    decreases n - i,
{
    if signed_fits(bits, signed_value(s.take(n as int))) {
        lemma_signed_prefix_fits(bits, s, i + 1, n);
    }
    if i + 1 < n {
        assert(continues(s[i as int]));
        lemma_signed_decides_from(bits, s, n, i + 1);
    }
}

/// Two encodings of one number are decoded to the same number.
pub proof fn lemma_signed_same_number(bits: nat, a: Seq<u8>, b: Seq<u8>)
    requires
        signed_grammar(bits, a) is Ok,
        signed_grammar(bits, b) is Ok,
        signed_value(a.take(signed_grammar(bits, a)->Ok_0.1 as int)) == signed_value(
            b.take(signed_grammar(bits, b)->Ok_0.1 as int),
        ),
    ensures
        signed_grammar(bits, a)->Ok_0.0 == signed_grammar(bits, b)->Ok_0.0,
{
    lemma_signed_leb_ok(bits, a, 0);
    lemma_signed_leb_ok(bits, b, 0);
}

/// The byte that pads a number of the sign of `s`: all payload bits as the
/// sign, and the high bit as `more` says.
pub open spec fn padding(s: Seq<u8>, more: bool) -> u8 {
    if negative(s) {
        if more {
            0xFF
        } else {
            0x7F
        }
    } else {
        if more {
            0x80
        } else {
            0x00
        }
    }
}

/// The encoding `s` of one number with `extra` more bytes of padding: the
/// last byte announces another, `extra` padding bytes follow that do the
/// same, and one padding byte ends the number.
pub open spec fn padded(s: Seq<u8>, extra: nat) -> Seq<u8> {
    s.drop_last().push((s.last() + 128) as u8) + Seq::new(extra, |i: int| padding(s, true)) + seq![
        padding(s, false),
    ]
}

/// Bytes that repeat the sign do not change the number that the bytes before
/// them spell.
pub proof fn lemma_signed_value_of_padding(s: Seq<u8>, n: nat)
    requires
        1 <= n <= s.len(),
        forall|j: int|
            n <= j < s.len() ==> payload(#[trigger] s[j]) == (if negative(s.take(n as int)) {
                127nat
            } else {
                0nat
            }),
    ensures
        signed_value(s) == signed_value(s.take(n as int)),
        negative(s) == negative(s.take(n as int)),
    decreases s.len() - n,
{
    if n < s.len() {
        lemma_signed_value_step(s, n);
        assert(s.take((n + 1) as int).last() == s[n as int]);
        assert(s.take((n + 1) as int).take(n as int) =~= s.take(n as int));
        let w = pow2(7 * n) as int;
        assert(w * 0 == 0) by (nonlinear_arith);
        lemma_signed_value_of_padding(s, n + 1);
    } else {
        assert(s.take(n as int) =~= s);
    }
}

/// Padding is accepted: an encoding that is decoded to a number is decoded to
/// the same number with any number of padding bytes.
pub proof fn lemma_signed_padding(bits: nat, s: Seq<u8>, extra: nat)
    requires
        bits >= 1,
        signed_grammar(bits, s) is Ok,
    ensures
        ({
            let (value, n) = signed_grammar(bits, s)->Ok_0;
            signed_grammar(bits, padded(s.take(n as int), extra)) == Ok::<(int, nat), Error>((value, n + extra + 1))
        }),
{
    lemma_signed_leb_ok(bits, s, 0);
    let (value, n) = signed_grammar(bits, s)->Ok_0;
    let t = s.take(n as int);
    let p = padded(t, extra);
    let last = (t.last() + 128) as u8;
    assert(t.last() == s[n - 1]);
    assert(t.last() < 128);
    assert(payload(last) == payload(t.last()));
    assert(p.len() == n + extra + 1);
    assert forall|j: int| 0 <= j < n + extra implies continues(#[trigger] p[j]) by {
        if j < n - 1 {
            assert(p[j] == s[j]);
        }
    }
    assert(ends_at(p, n + extra + 1));
    let q = p.take(n as int);
    assert forall|j: int| 0 <= j < n implies payload(#[trigger] q[j]) == payload(t[j]) by {
        if j < n - 1 {
            assert(p[j] == t[j]);
        }
    }
    lemma_unsigned_value_of_payloads(q, t);
    assert(q.last() == last);
    assert(negative(q) == negative(t));
    assert(signed_value(q) == signed_value(t));
    lemma_signed_value_of_padding(p, n);
    assert(p.take((n + extra + 1) as int) =~= p);
    lemma_signed_fits_or_fails(bits, p, n + extra + 1);
}

/// Where the number spelled up to the byte at `i` does not fit and every byte
/// before it announces another, decoding fails as out of range.
pub proof fn lemma_signed_fails_by(bits: nat, s: Seq<u8>, i: nat, from: nat)
    requires
        from <= i < s.len(),
        !signed_fits(bits, signed_value(s.take((i + 1) as int))),
        forall|j: int| 0 <= j < i ==> continues(#[trigger] s[j]),
    ensures
        signed_leb(bits, s, from) == Err::<(int, nat), Error>(Error::OutOfRangeSignedInteger),
    decreases i - from,
{
    if from < i {
        assert(continues(s[from as int]));
        lemma_signed_fails_by(bits, s, i, from + 1);
    }
}

/// Padding that does not repeat the sign is refused: a byte beyond the width
/// whose payload is not all the sign of the bytes before it puts the number
/// out of range.
pub proof fn lemma_signed_bad_padding(bits: nat, s: Seq<u8>, i: nat)
    requires
        bits >= 1,
        1 <= i < s.len(),
        7 * i >= bits,
        payload(s[i as int]) != (if negative(s.take(i as int)) {
            127nat
        } else {
            0nat
        }),
        forall|j: int| 0 <= j < i ==> continues(#[trigger] s[j]),
    ensures
        signed_grammar(bits, s) == Err::<(int, nat), Error>(Error::OutOfRangeSignedInteger),
{
    if signed_fits(bits, signed_value(s.take(i as int))) {
        lemma_signed_value_step(s, i);
        assert(s.take((i + 1) as int).last() == s[i as int]);
        if 7 * i > bits {
            lemma_pow2_strictly_increases(bits, 7 * i);
        }
        lemma_pow2_adds((bits - 1) as nat, 1);
        lemma2_to64();
        let w = pow2(7 * i) as int;
        let d = sign_bit(s.take(i as int)) + payload(s[i as int]) - 128 * sign_bit(s.take((i + 1) as int));
        assert(d >= 1 ==> w * d >= w) by (nonlinear_arith)
            requires
                w >= 0,
        ;
        assert(d <= -1 ==> w * d <= -w) by (nonlinear_arith)
            requires
                w >= 0,
        ;
        lemma_signed_fails_by(bits, s, i, 0);
    } else {
        assert(s.take(((i - 1) + 1) as int) =~= s.take(i as int));
        lemma_signed_fails_by(bits, s, (i - 1) as nat, 0);
    }
}

/// Decodes a signed LEB-128 integer of `bits` bits.
pub fn parse_signed_leb_128(bin: &mut Source, bits: u32) -> (r: Result<i64, Error>)
    requires
        bits == 8 || bits == 16 || bits == 32 || bits == 64,
    ensures
        parses(
            *old(bin),
            *final(bin),
            r,
            map_parsed(signed_grammar(bits as nat, old(bin)@), |v: int| v as i64),
        ),
        r matches Ok(v) ==> signed_fits(bits as nat, v as int),
{
    let limit = limit_of(bits);
    let half: u128 = limit / 2;
    let mut acc: u128 = u128_zero();
    // 128 to the number of bytes read, as long as that is below the limit
    let mut scale: u128 = 1;
    let mut value: i128 = 0;
    let mut minus = false;
    let mut padding = false;
    let ghost s = bin@;
    let ghost mut i: nat = 0;
    proof {
        lemma2_to64();
        lemma_pow2_adds((bits - 1) as nat, 1);
        assert(s.take(0) =~= Seq::<u8>::empty());
    }
    loop
        invariant
            bits == 8 || bits == 16 || bits == 32 || bits == 64,
            s == old(bin)@,
            limit == pow2(bits as nat),
            half == pow2((bits - 1) as nat),
            limit == 2 * half,
            bin.beyond() == old(bin).beyond(),
            i <= s.len(),
            bin@ == s.skip(i as int),
            value == signed_value(s.take(i as int)),
            signed_fits(bits as nat, value as int),
            minus <==> negative(s.take(i as int)),
            padding <==> 7 * i >= bits,
            !padding ==> scale == pow2(7 * i) && acc == unsigned_value(s.take(i as int)),
            signed_grammar(bits as nat, s) == signed_leb(bits as nat, s, i),
        decreases s.len() - i,
    {
        let byte = match bin.next() {
            Some(byte) => byte,
            None => {
                return Err(Error::UnexpectedEndOfFile);
            },
        };
        let val = payload_of(byte);
        proof {
            lemma_unsigned_value_step(s, i);
            lemma_signed_value_step(s, i);
            lemma_pow2_pos(7 * i);
            lemma2_to64();
            assert(bin@ =~= s.skip((i + 1) as int));
            assert(byte == s[i as int]);
            assert(s.take((i + 1) as int).last() == byte);
        }
        if padding {
            let expected: u128 = if minus {
                0x7F
            } else {
                0
            };
            proof {
                if 7 * i > bits {
                    lemma_pow2_strictly_increases(bits as nat, 7 * i);
                }
                let w = pow2(7 * i) as int;
                let d = sign_bit(s.take(i as int)) + val - 128 * sign_bit(s.take((i + 1) as int));
                assert(d >= 1 ==> w * d >= w) by (nonlinear_arith)
                    requires
                        w > 0,
                ;
                assert(d <= -1 ==> w * d <= -w) by (nonlinear_arith)
                    requires
                        w > 0,
                ;
                assert(d == 0 ==> w * d == 0) by (nonlinear_arith);
                assert(d == 0 <==> val == expected);
            }
            if val != expected {
                return Err(Error::OutOfRangeSignedInteger);
            }
        } else {
            proof {
                // 7 * i < bits <= 64, so scale and the sum stay far below 2 to the 127
                lemma_pow2_strictly_increases(7 * i, 64);
                lemma_unsigned_value_bound(s.take(i as int));
                assert(val * scale <= 127 * scale) by (nonlinear_arith)
                    requires
                        val <= 127,
                ;
                lemma_pow2_adds(7 * i, 7);
                assert(pow2(7 * i) * 128 == scale * 128);
            }
            acc = acc + val * scale;
            scale = scale * 128;
            minus = val >= 64;
            value = if minus {
                acc as i128 - scale as i128
            } else {
                acc as i128
            };
            if value < -(half as i128) || value >= half as i128 {
                return Err(Error::OutOfRangeSignedInteger);
            }
            padding = scale >= limit;
            proof {
                if 7 * (i + 1) >= bits {
                    if 7 * (i + 1) > bits {
                        lemma_pow2_strictly_increases(bits as nat, 7 * (i + 1));
                    }
                } else {
                    lemma_pow2_strictly_increases(7 * (i + 1), bits as nat);
                }
            }
        }
        proof {
            i = i + 1;
        }
        if !continues_of(byte) {
            proof {
                lemma2_to64();
                lemma_pow2_strictly_increases((bits - 1) as nat, 64);
                if bits < 64 {
                    lemma_pow2_strictly_increases((bits - 1) as nat, 63);
                }
                lemma_pow2_adds(63, 1);
            }
            return Ok(value as i64);
        }
    }
}

/// The grammar of an `i8`.
pub open spec fn i8_grammar(s: Seq<u8>) -> Parsed<i8> {
    map_parsed(signed_grammar(8, s), |v: int| v as i8)
}

impl WasmBinaryGrammar for i8 {
    open spec fn grammar(s: Seq<u8>) -> Parsed<i8> {
        i8_grammar(s)
    }
}

impl WasmBinaryParse for i8 {
    fn parse(bin: &mut Source) -> (r: Result<Self, Error>) {
        proof {
            lemma2_to64();
            lemma_signed_leb_ok(8, bin@, 0);
        }
        match parse_signed_leb_128(bin, 8) {
            Ok(v) => Ok(v as i8),
            Err(e) => Err(e),
        }
    }
}

/// The grammar of an `i16`.
pub open spec fn i16_grammar(s: Seq<u8>) -> Parsed<i16> {
    map_parsed(signed_grammar(16, s), |v: int| v as i16)
}

impl WasmBinaryGrammar for i16 {
    open spec fn grammar(s: Seq<u8>) -> Parsed<i16> {
        i16_grammar(s)
    }
}

impl WasmBinaryParse for i16 {
    fn parse(bin: &mut Source) -> (r: Result<Self, Error>) {
        proof {
            lemma2_to64();
            lemma_signed_leb_ok(16, bin@, 0);
        }
        match parse_signed_leb_128(bin, 16) {
            Ok(v) => Ok(v as i16),
            Err(e) => Err(e),
        }
    }
}

/// The grammar of an `i32`.
pub open spec fn i32_grammar(s: Seq<u8>) -> Parsed<i32> {
    map_parsed(signed_grammar(32, s), |v: int| v as i32)
}

impl WasmBinaryGrammar for i32 {
    open spec fn grammar(s: Seq<u8>) -> Parsed<i32> {
        i32_grammar(s)
    }
}

impl WasmBinaryParse for i32 {
    fn parse(bin: &mut Source) -> (r: Result<Self, Error>) {
        proof {
            lemma2_to64();
            lemma_signed_leb_ok(32, bin@, 0);
        }
        match parse_signed_leb_128(bin, 32) {
            Ok(v) => Ok(v as i32),
            Err(e) => Err(e),
        }
    }
}

/// The grammar of an `i64`.
pub open spec fn i64_grammar(s: Seq<u8>) -> Parsed<i64> {
    map_parsed(signed_grammar(64, s), |v: int| v as i64)
}

impl WasmBinaryGrammar for i64 {
    open spec fn grammar(s: Seq<u8>) -> Parsed<i64> {
        i64_grammar(s)
    }
}

impl WasmBinaryParse for i64 {
    fn parse(bin: &mut Source) -> (r: Result<Self, Error>) {
        proof {
            lemma2_to64();
        }
        match parse_signed_leb_128(bin, 64) {
            Ok(v) => Ok(v),
            Err(e) => Err(e),
        }
    }
}

/// Decoding reads only the bytes of the number: what follows them does not
/// change what is decoded.
pub proof fn lemma_signed_reads_its_bytes(bits: nat, s: Seq<u8>, t: Seq<u8>)
    requires
        bits >= 1,
    ensures
        local(s, t, signed_grammar(bits, s), signed_grammar(bits, t)),
{
    lemma_signed_leb_ok(bits, s, 0);
    if signed_grammar(bits, s) is Ok {
        let n = signed_grammar(bits, s)->Ok_0.1;
        if n <= t.len() && t.take(n as int) == s.take(n as int) {
            assert forall|j: int| 0 <= j < n implies #[trigger] t[j] == s[j] by {
                assert(t.take(n as int)[j] == s.take(n as int)[j]);
            }
            assert(ends_at(t, n));
            lemma_signed_fits_or_fails(bits, t, n);
        }
    }
}

/// An `i32` is read from its own bytes.
pub proof fn lemma_i32_local(s: Seq<u8>, t: Seq<u8>)
    ensures
        local(s, t, i32_grammar(s), i32_grammar(t)),
{
    lemma_signed_reads_its_bytes(32, s, t);
}

/// An `i64` is read from its own bytes.
pub proof fn lemma_i64_local(s: Seq<u8>, t: Seq<u8>)
    ensures
        local(s, t, i64_grammar(s), i64_grammar(t)),
{
    lemma_signed_reads_its_bytes(64, s, t);
}

} // verus!
