//! The traits that tie a type to its binary grammar.

use vstd::prelude::*;
use crate::source::Source;
use crate::binary::error::Error;

verus! {

/// What a grammar makes of a byte sequence: the value's view and the number of
/// bytes it takes up, or the failure.
pub type Parsed<V> = Result<(V, nat), Error>;

/// Holds when a call that found the source as `before`, left it as `after` and
/// returned `r` did what `spec` says of the bytes in `before`.
pub open spec fn parses<T: DeepView>(
    before: Source,
    after: Source,
    r: Result<T, Error>,
    spec: Parsed<T::V>,
) -> bool {
    &&& after.beyond() == before.beyond()
    &&& match spec {
        Ok((v, n)) => {
            &&& r is Ok
            &&& r->Ok_0.deep_view() == v
            &&& n <= before@.len()
            &&& after@ == before@.skip(n as int)
        },
        Err(e) => r == Err::<T, Error>(e),
    }
}

/// The outcome `p` with its value changed by `f`.
pub open spec fn map_parsed<A, B>(p: Parsed<A>, f: spec_fn(A) -> B) -> Parsed<B> {
    match p {
        Ok((v, n)) => Ok((f(v), n)),
        Err(e) => Err(e),
    }
}

/// A type with a binary grammar.
pub trait WasmBinaryGrammar: Sized + DeepView {
    /// The grammar: what decoding a value of this type from `s` gives.
    spec fn grammar(s: Seq<u8>) -> Parsed<Self::V>;
}

/// Whether a grammar that makes `of_s` of `s` and `of_t` of `t` has read only
/// the bytes of the value in `s`: the value takes up bytes that are there,
/// and if `t` starts with the same bytes it holds the same value.
pub open spec fn local<V>(s: Seq<u8>, t: Seq<u8>, of_s: Parsed<V>, of_t: Parsed<V>) -> bool {
    of_s matches Ok((_, n)) ==> {
        &&& n <= s.len()
        &&& (n <= t.len() && t.take(n as int) == s.take(n as int) ==> of_t == of_s)
    }
}

/// Whether the grammar of `T` reads only the bytes that a value takes up.
pub open spec fn reads_its_bytes<T: WasmBinaryGrammar>() -> bool {
    forall|s: Seq<u8>, t: Seq<u8>| #![trigger T::grammar(s), T::grammar(t)] local(s, t, T::grammar(s), T::grammar(t))
}

/// Bytes that agree up to `n` agree up to `a` and from `a` up to `n`.
pub proof fn lemma_agree(s: Seq<u8>, t: Seq<u8>, a: nat, n: nat)
    requires
        a <= n <= s.len(),
        n <= t.len(),
        t.take(n as int) == s.take(n as int),
    ensures
        t.take(a as int) == s.take(a as int),
        t.skip(a as int).take(n - a) == s.skip(a as int).take(n - a),
        a < n ==> t[a as int] == s[a as int],
{
    assert(t.take(a as int) =~= t.take(n as int).take(a as int));
    assert(s.take(a as int) =~= s.take(n as int).take(a as int));
    assert(t.skip(a as int).take(n - a) =~= t.take(n as int).skip(a as int));
    assert(s.skip(a as int).take(n - a) =~= s.take(n as int).skip(a as int));
    if a < n {
        assert(t[a as int] == t.take(n as int)[a as int]);
        assert(s[a as int] == s.take(n as int)[a as int]);
    }
}

/// A type that can be decoded from a byte source, as its grammar says.
pub trait WasmBinaryParse: WasmBinaryGrammar {
    /// Decodes one value from the front of `bin`.
    fn parse(bin: &mut Source) -> (r: Result<Self, Error>)
        ensures
            parses(*old(bin), *final(bin), r, Self::grammar(old(bin)@)),
    ;
}

/// A byte source from which any type with a grammar can be decoded.
pub trait WasmBinary: Sized {
    /// The bytes that are still to be read.
    spec fn rest(&self) -> Seq<u8>;

    /// Decodes one `T` from the front of the source.
    fn parse<T: WasmBinaryParse>(&mut self) -> (r: Result<T, Error>)
        ensures
            match T::grammar(old(self).rest()) {
                Ok((v, n)) => {
                    &&& r is Ok
                    &&& r->Ok_0.deep_view() == v
                    &&& n <= old(self).rest().len()
                    &&& final(self).rest() == old(self).rest().skip(n as int)
                },
                Err(e) => r == Err::<T, Error>(e),
            },
    ;
}

impl WasmBinary for Source {
    open spec fn rest(&self) -> Seq<u8> {
        self@
    }

    fn parse<T: WasmBinaryParse>(&mut self) -> (r: Result<T, Error>) {
        T::parse(self)
    }
}

/// A type that stands for another while it is decoded, to give it another
/// grammar.
pub trait WasmBinaryParseProxy: WasmBinaryParse {
    /// The type that the proxy stands for.
    type Inner;

    /// The view of the proxy that stands for `inner`.
    spec fn proxy_view(inner: &Self::Inner) -> Self::V;

    /// The value that the proxy stands for.
    fn unwrap(self) -> (r: Self::Inner)
        ensures
            Self::proxy_view(&r) == self.deep_view(),
    ;
}

} // verus!
