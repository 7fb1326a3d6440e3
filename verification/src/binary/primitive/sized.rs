//! Decoding of values that are stored behind their size.
//!
//! A [`Sized`] value is stored as the number of bytes that it takes up, a
//! `u32`, and then the value, which must take up exactly that many bytes.
//! [`Consume`] takes up whatever is left, so that a sized value can be skipped
//! without being decoded.

use vstd::prelude::*;
use crate::source::Source;
use crate::binary::error::Error;
use crate::binary::primitive::traits::{
    lemma_agree, local, reads_its_bytes, Parsed, WasmBinaryGrammar, WasmBinaryParse, WasmBinaryParseProxy,
};
use crate::binary::primitive::unsigned::{
    lemma_u32_local, lemma_unsigned_leb_ok, lemma_unsigned_reads_its_bytes, u32_grammar,
};

verus! {

broadcast use vstd::seq_lib::lemma_seq_skip_of_skip;

/// A value that is stored behind its size in bytes.
#[derive(Debug, PartialEq)]
pub struct Sized<T>(pub T);

impl<T: DeepView> DeepView for Sized<T> {
    type V = T::V;

    open spec fn deep_view(&self) -> T::V {
        self.0.deep_view()
    }
}

/// The bytes that a value of declared size `size` may use: the first `size`
/// bytes of `s`, or all of `s` if it is shorter.
pub open spec fn window(s: Seq<u8>, size: nat) -> Seq<u8> {
    s.take(vstd::math::min(size as int, s.len() as int))
}

/// The grammar of a sized value: the size, then the value, decoded from the
/// bytes that the size allows it and taking up all of them.
pub open spec fn sized_grammar<T: WasmBinaryGrammar>(s: Seq<u8>) -> Parsed<T::V> {
    match u32_grammar(s) {
        Err(e) => Err(e),
        Ok((size, n)) => match T::grammar(window(s.skip(n as int), size as nat)) {
            Err(e) => Err(e),
            Ok((value, m)) => if m == size {
                Ok((value, n + m))
            } else {
                Err(Error::SizeMissmatch)
            },
        },
    }
}

/// The size is held to: where `body` is a value of `T` and nothing else, and
/// `size` encodes a number that is one above the length of `body`, or one
/// below, the bytes `size + body + rest` are not a sized value of `T`.  One
/// above, the failure is a size mismatch.
pub proof fn lemma_wrong_size_fails<T: WasmBinaryGrammar>(size: Seq<u8>, body: Seq<u8>, rest: Seq<u8>)
    requires
        reads_its_bytes::<T>(),
        u32_grammar(size) is Ok,
        u32_grammar(size)->Ok_0.1 == size.len(),
        T::grammar(body) is Ok,
        T::grammar(body)->Ok_0.1 == body.len(),
        u32_grammar(size)->Ok_0.0 == body.len() + 1 || u32_grammar(size)->Ok_0.0 + 1 == body.len(),
    ensures
        sized_grammar::<T>(size + body + rest) is Err,
        u32_grammar(size)->Ok_0.0 == body.len() + 1 ==> sized_grammar::<T>(size + body + rest) == Err::<
            (T::V, nat),
            Error,
        >(Error::SizeMissmatch),
{
    let all = size + body + rest;
    let declared = u32_grammar(size)->Ok_0.0;
    let k = size.len();
    assert(all.take(k as int) =~= size.take(k as int));
    lemma_unsigned_reads_its_bytes(32, size, all);
    assert(u32_grammar(all) == u32_grammar(size));
    let tail = all.skip(k as int);
    assert(tail =~= body + rest);
    let seen = window(tail, declared as nat);
    assert(local(body, seen, T::grammar(body), T::grammar(seen)));
    assert(local(seen, body, T::grammar(seen), T::grammar(body)));
    if declared == body.len() + 1 {
        assert(seen.take(body.len() as int) =~= body.take(body.len() as int));
    } else {
        assert(seen =~= body.take(declared as int));
        if T::grammar(seen) is Ok {
            let m = T::grammar(seen)->Ok_0.1;
            assert(body.take(m as int) =~= seen.take(m as int));
        }
    }
}

/// A sized value is read from its own bytes: where `body` is a sized value
/// and nothing else, bytes that start with `body` hold the same sized value.
pub proof fn lemma_sized_ignores_what_follows<T: WasmBinaryGrammar>(body: Seq<u8>, tail: Seq<u8>)
    requires
        sized_grammar::<T>(body) is Ok,
        sized_grammar::<T>(body)->Ok_0.1 == body.len(),
        body.len() <= tail.len(),
        tail.take(body.len() as int) == body,
    ensures
        sized_grammar::<T>(tail) == sized_grammar::<T>(body),
{
    lemma_unsigned_leb_ok(32, body, 0);
    let (size, n) = u32_grammar(body)->Ok_0;
    assert(tail.take(n as int) =~= body.take(n as int)) by {
        assert(tail.take(body.len() as int).take(n as int) =~= tail.take(n as int));
    }
    lemma_unsigned_reads_its_bytes(32, body, tail);
    assert(u32_grammar(tail) == u32_grammar(body));
    assert(window(tail.skip(n as int), size as nat) =~= window(body.skip(n as int), size as nat)) by {
        assert(tail.take(body.len() as int).skip(n as int) =~= body.skip(n as int));
    }
}

/// A sized value is read from its own bytes, if the value is.
pub proof fn lemma_sized_local<T: WasmBinaryGrammar>(s: Seq<u8>, t: Seq<u8>)
    requires
        reads_its_bytes::<T>(),
    ensures
        local(s, t, sized_grammar::<T>(s), sized_grammar::<T>(t)),
{
    lemma_u32_local(s, t);
    if sized_grammar::<T>(s) is Ok {
        let (size, a) = u32_grammar(s)->Ok_0;
        let n = sized_grammar::<T>(s)->Ok_0.1;
        let seen = window(s.skip(a as int), size as nat);
        let other = window(t.skip(a as int), size as nat);
        assert(local(seen, other, T::grammar(seen), T::grammar(other)));
        if n <= t.len() && t.take(n as int) == s.take(n as int) {
            lemma_agree(s, t, a, n);
            assert(other =~= seen);
        }
    }
}

/// A sized value is read from its own bytes, if the value is.
pub proof fn lemma_sized_reads_its_bytes<T: WasmBinaryGrammar>()
    requires
        reads_its_bytes::<T>(),
    ensures
        reads_its_bytes::<Sized<T>>(),
{
    assert forall|s: Seq<u8>, t: Seq<u8>|
        #![trigger Sized::<T>::grammar(s), Sized::<T>::grammar(t)]
        local(s, t, Sized::<T>::grammar(s), Sized::<T>::grammar(t)) by {
        lemma_sized_local::<T>(s, t);
    }
}

impl<T: WasmBinaryGrammar> WasmBinaryGrammar for Sized<T> {
    open spec fn grammar(s: Seq<u8>) -> Parsed<T::V> {
        sized_grammar::<T>(s)
    }
}

impl<T: WasmBinaryParse> WasmBinaryParse for Sized<T> {
    fn parse(bin: &mut Source) -> (r: Result<Self, Error>) {
        let size = u32::parse(bin)?;
        let ghost rest = bin@;
        let hidden = bin.take(size as usize);
        let visible = bin.remaining();
        let result = T::parse(bin);
        let left = bin.remaining();
        let ghost unread = bin@;
        bin.release(hidden);
        assert(bin.beyond() =~= old(bin).beyond());
        assert(bin@ =~= unread + rest.skip(rest.len() - hidden));
        match result {
            Err(e) => Err(e),
            Ok(value) => {
                if visible - left != size as usize {
                    Err(Error::SizeMissmatch)
                } else {
                    assert(bin@ =~= rest.skip(size as int));
                    Ok(Sized(value))
                }
            },
        }
    }
}

impl<T: WasmBinaryParse> WasmBinaryParseProxy for Sized<T> {
    type Inner = T;

    open spec fn proxy_view(inner: &T) -> T::V {
        inner.deep_view()
    }

    fn unwrap(self) -> (r: T) {
        self.0
    }
}

/// What is left of the bytes that a sized value may use.
#[derive(Debug, Clone, Copy, PartialEq, Eq, Structural)]
pub struct Consume {
    /// How many bytes were left.
    pub count: usize,
}

impl DeepView for Consume {
    type V = Consume;

    open spec fn deep_view(&self) -> Consume {
        *self
    }
}

/// The grammar of [`Consume`]: all of `s`, whatever it holds.
pub open spec fn consume_grammar(s: Seq<u8>) -> Parsed<Consume> {
    Ok((Consume { count: s.len() as usize }, s.len()))
}

impl WasmBinaryGrammar for Consume {
    open spec fn grammar(s: Seq<u8>) -> Parsed<Consume> {
        consume_grammar(s)
    }
}

impl WasmBinaryParse for Consume {
    fn parse(bin: &mut Source) -> (r: Result<Self, Error>) {
        let count = bin.count();
        assert(old(bin)@.skip(old(bin)@.len() as int) =~= Seq::<u8>::empty());
        Ok(Consume { count })
    }
}

} // verus!
