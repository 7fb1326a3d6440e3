//! Decoding of signed integers.

use vstd::prelude::*;
use crate::binary::primitive::signed::{parse_signed_leb_128, signed_fits, signed_grammar};
use crate::binary::primitive::traits::map_parsed;
use crate::grammar::primitive::error::{convert, Error};
use crate::grammar::primitive::traits::deserializes;
use crate::source::Source;

verus! {

/// Decodes a signed LEB-128 integer of `bits` bits.
pub fn deserialize_signed_leb_128(iter: &mut Source, bits: u32) -> (r: Result<i64, Error>)
    requires
        bits == 8 || bits == 16 || bits == 32 || bits == 64,
    ensures
        deserializes(
            *old(iter),
            *final(iter),
            r,
            map_parsed(signed_grammar(bits as nat, old(iter)@), |v: int| v as i64),
        ),
        r matches Ok(v) ==> signed_fits(bits as nat, v as int),
{
    match parse_signed_leb_128(iter, bits) {
        Ok(value) => Ok(value),
        Err(e) => Err(convert(e)),
    }
}

} // verus!
