//! Decoding of strings.
//!
//! A string is stored as a vector of raw bytes, which must be the UTF-8
//! encoding of its characters.

use vstd::prelude::*;
use vstd::utf8::{decode_utf8, valid_utf8};
use crate::source::Source;
use crate::binary::error::Error;
use crate::binary::primitive::byte::{lemma_byte_reads_its_bytes, Byte};
use crate::binary::primitive::traits::{
    local, Parsed, WasmBinaryGrammar, WasmBinaryParse, WasmBinaryParseProxy,
};
use crate::binary::primitive::vec::{lemma_vec_local, proxy_views, vec_grammar, UnwrappingVec};

verus! {

/// `String::from_utf8`: the string whose UTF-8 encoding `bytes` is, or nothing
/// where `bytes` is not valid UTF-8.
#[verifier::external_body]
fn string_from_utf8(bytes: Vec<u8>) -> (r: Option<String>)
    ensures
        valid_utf8(bytes@) ==> r is Some && r->Some_0@ == decode_utf8(bytes@),
        !valid_utf8(bytes@) ==> r is None,
{
    match String::from_utf8(bytes) {
        Ok(string) => Some(string),
        Err(_) => None,
    }
}

/// The grammar of a string: a vector of bytes that is valid UTF-8.
pub open spec fn string_grammar(s: Seq<u8>) -> Parsed<Seq<char>> {
    match vec_grammar::<Byte>(s) {
        Err(e) => Err(e),
        Ok((bytes, n)) => if valid_utf8(bytes) {
            Ok((decode_utf8(bytes), n))
        } else {
            Err(Error::InvalidUtf8Encoding)
        },
    }
}

impl WasmBinaryGrammar for String {
    open spec fn grammar(s: Seq<u8>) -> Parsed<Seq<char>> {
        string_grammar(s)
    }
}

impl WasmBinaryParse for String {
    fn parse(bin: &mut Source) -> (r: Result<Self, Error>) {
        let raw = UnwrappingVec::<Byte>::parse(bin)?;
        let bytes = raw.unwrap();
        assert(proxy_views::<Byte>(bytes@) =~= bytes@);
        match string_from_utf8(bytes) {
            Some(string) => Ok(string),
            None => Err(Error::InvalidUtf8Encoding),
        }
    }
}

/// A string is read from its own bytes.
pub proof fn lemma_string_local(s: Seq<u8>, t: Seq<u8>)
    ensures
        local(s, t, string_grammar(s), string_grammar(t)),
{
    lemma_byte_reads_its_bytes();
    lemma_vec_local::<Byte>(s, t);
}

} // verus!
