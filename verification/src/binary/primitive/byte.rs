//! Decoding of raw bytes.

use vstd::prelude::*;
use crate::source::Source;
use crate::binary::error::Error;
use crate::binary::primitive::traits::{
    lemma_agree, local, reads_its_bytes, Parsed, WasmBinaryGrammar, WasmBinaryParse, WasmBinaryParseProxy,
};
use crate::binary::primitive::vec::repeat;

verus! {

/// One raw byte of the stream, as opposed to a `u8`, which is a LEB-128
/// encoded number.
#[derive(Debug, Clone, Copy, PartialEq, Eq, Structural)]
pub struct Byte(pub u8);

impl DeepView for Byte {
    type V = u8;

    open spec fn deep_view(&self) -> u8 {
        self.0
    }
}

impl vstd::std_specs::convert::FromSpecImpl<Byte> for u8 {
    open spec fn obeys_from_spec() -> bool {
        true
    }

    open spec fn from_spec(byte: Byte) -> u8 {
        byte.0
    }
}

impl From<Byte> for u8 {
    /// The byte as a number.
    fn from(byte: Byte) -> (r: u8) {
        byte.0
    }
}

/// The grammar of a raw byte: the first byte of `s`, whatever it is.
pub open spec fn byte_grammar(s: Seq<u8>) -> Parsed<u8> {
    if s.len() == 0 {
        Err(Error::UnexpectedEndOfFile)
    } else {
        Ok((s[0], 1))
    }
}

impl WasmBinaryGrammar for Byte {
    open spec fn grammar(s: Seq<u8>) -> Parsed<u8> {
        byte_grammar(s)
    }
}

impl WasmBinaryParse for Byte {
    fn parse(bin: &mut Source) -> (r: Result<Self, Error>) {
        match bin.next() {
            Some(byte) => Ok(Byte(byte)),
            None => Err(Error::UnexpectedEndOfFile),
        }
    }
}

/// A row of raw bytes is the bytes as they stand.
pub proof fn lemma_repeat_bytes(s: Seq<u8>, count: nat)
    ensures
        repeat::<Byte>(s, count) == if s.len() < count {
            Err::<(Seq<u8>, nat), Error>(Error::UnexpectedEndOfFile)
        } else {
            Ok((s.take(count as int), count))
        },
    decreases count,
{
    if count > 0 {
        lemma_repeat_bytes(s, (count - 1) as nat);
        if s.len() >= count {
            assert(s.take(count as int) =~= s.take(count - 1).push(s[count - 1]));
        }
    } else {
        assert(s.take(0) =~= Seq::<u8>::empty());
    }
}

/// A raw byte is read from its own byte.
pub proof fn lemma_byte_local(s: Seq<u8>, t: Seq<u8>)
    ensures
        local(s, t, byte_grammar(s), byte_grammar(t)),
{
    if s.len() >= 1 && t.len() >= 1 && t.take(1) == s.take(1) {
        lemma_agree(s, t, 0, 1);
    }
}

/// A raw byte is read from its own byte.
pub proof fn lemma_byte_reads_its_bytes()
    ensures
        reads_its_bytes::<Byte>(),
{
    assert forall|s: Seq<u8>, t: Seq<u8>|
        #![trigger Byte::grammar(s), Byte::grammar(t)]
        local(s, t, Byte::grammar(s), Byte::grammar(t)) by {
        lemma_byte_local(s, t);
    }
}

impl WasmBinaryParseProxy for Byte {
    type Inner = u8;

    open spec fn proxy_view(inner: &u8) -> u8 {
        *inner
    }

    fn unwrap(self) -> (r: u8) {
        self.0
    }
}

} // verus!
