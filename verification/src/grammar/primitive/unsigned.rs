//! Decoding of unsigned integers.

use vstd::prelude::*;
use vstd::arithmetic::power2::pow2;
use crate::binary::primitive::traits::map_parsed;
use crate::binary::primitive::unsigned::{parse_unsigned_leb_128, unsigned_grammar};
use crate::grammar::primitive::error::{convert, Error};
use crate::grammar::primitive::traits::deserializes;
use crate::source::Source;

verus! {

/// Decodes an unsigned LEB-128 integer of `bits` bits.
pub fn deserialize_unsigned_leb_128(iter: &mut Source, bits: u32) -> (r: Result<u64, Error>)
    requires
        bits == 8 || bits == 16 || bits == 32 || bits == 64,
    ensures
        deserializes(
            *old(iter),
            *final(iter),
            r,
            map_parsed(unsigned_grammar(bits as nat, old(iter)@), |v: nat| v as u64),
        ),
        r matches Ok(v) ==> v < pow2(bits as nat),
{
    match parse_unsigned_leb_128(iter, bits) {
        Ok(value) => Ok(value),
        Err(e) => Err(convert(e)),
    }
}

} // verus!
