//! Decoding of vectors.
//!
//! A `Vec<T>` is stored as the number of its elements, a `u32`, and then the
//! elements.  A [`CompactVec`] stores runs of equal elements as a count and
//! one element each.  An [`UnwrappingVec`] is stored like a `Vec` of proxies
//! and holds what they stand for.

use vstd::prelude::*;
use crate::source::Source;
use crate::binary::error::Error;
use crate::binary::primitive::traits::{
    lemma_agree, local, parses, reads_its_bytes, Parsed, WasmBinaryGrammar, WasmBinaryParse, WasmBinaryParseProxy,
};
use crate::binary::primitive::unsigned::{lemma_u32_local, u32_grammar};

verus! {

broadcast use vstd::seq_lib::lemma_seq_skip_of_skip;

/// The grammar of `count` values of `T` in a row: all but the last of them,
/// and then the last.
pub open spec fn repeat<T: WasmBinaryGrammar>(s: Seq<u8>, count: nat) -> Parsed<Seq<T::V>>
    decreases count,
{
    if count == 0 {
        Ok((Seq::empty(), 0))
    } else {
        match repeat::<T>(s, (count - 1) as nat) {
            Err(e) => Err(e),
            Ok((front, n)) => match T::grammar(s.skip(n as int)) {
                Err(e) => Err(e),
                Ok((last, m)) => Ok((front.push(last), n + m)),
            },
        }
    }
}

/// Where a shorter row fails, every longer one fails in the same way.
pub proof fn lemma_repeat_fails<T: WasmBinaryGrammar>(s: Seq<u8>, short: nat, long: nat)
    requires
        short <= long,
        repeat::<T>(s, short) is Err,
    ensures
        repeat::<T>(s, long) == repeat::<T>(s, short),
    decreases long,
{
    if short < long {
        lemma_repeat_fails::<T>(s, short, (long - 1) as nat);
    }
}

/// A row of values is read from its own bytes, if each value is.
pub proof fn lemma_repeat_local<T: WasmBinaryGrammar>(s: Seq<u8>, t: Seq<u8>, count: nat)
    requires
        reads_its_bytes::<T>(),
    ensures
        local(s, t, repeat::<T>(s, count), repeat::<T>(t, count)),
    decreases count,
{
    if count > 0 && repeat::<T>(s, count) is Ok {
        lemma_repeat_local::<T>(s, t, (count - 1) as nat);
        let a = repeat::<T>(s, (count - 1) as nat)->Ok_0.1;
        let n = repeat::<T>(s, count)->Ok_0.1;
        assert(local(s.skip(a as int), t.skip(a as int), T::grammar(s.skip(a as int)), T::grammar(t.skip(a as int))));
        if n <= t.len() && t.take(n as int) == s.take(n as int) {
            lemma_agree(s, t, a, n);
        }
    }
}

/// A vector is read from its own bytes, if each of its elements is.
pub proof fn lemma_vec_local<T: WasmBinaryGrammar>(s: Seq<u8>, t: Seq<u8>)
    requires
        reads_its_bytes::<T>(),
    ensures
        local(s, t, vec_grammar::<T>(s), vec_grammar::<T>(t)),
{
    lemma_u32_local(s, t);
    if vec_grammar::<T>(s) is Ok {
        let (count, a) = u32_grammar(s)->Ok_0;
        let n = vec_grammar::<T>(s)->Ok_0.1;
        lemma_repeat_local::<T>(s.skip(a as int), t.skip(a as int), count as nat);
        if n <= t.len() && t.take(n as int) == s.take(n as int) {
            lemma_agree(s, t, a, n);
        }
    }
}

/// A vector is read from its own bytes, if each of its elements is.
pub proof fn lemma_vec_reads_its_bytes<T: WasmBinaryGrammar>()
    requires
        reads_its_bytes::<T>(),
    ensures
        reads_its_bytes::<Vec<T>>(),
{
    assert forall|s: Seq<u8>, t: Seq<u8>|
        #![trigger Vec::<T>::grammar(s), Vec::<T>::grammar(t)]
        local(s, t, Vec::<T>::grammar(s), Vec::<T>::grammar(t)) by {
        lemma_vec_local::<T>(s, t);
    }
}

/// The grammar of a vector: its length, then its elements.
pub open spec fn vec_grammar<T: WasmBinaryGrammar>(s: Seq<u8>) -> Parsed<Seq<T::V>> {
    match u32_grammar(s) {
        Err(e) => Err(e),
        Ok((count, n)) => match repeat::<T>(s.skip(n as int), count as nat) {
            Err(e) => Err(e),
            Ok((elements, m)) => Ok((elements, n + m)),
        },
    }
}

/// Decodes `count` values of `T` in a row.
pub fn parse_repeat<T: WasmBinaryParse>(bin: &mut Source, count: u32) -> (r: Result<Vec<T>, Error>)
    ensures
        parses(*old(bin), *final(bin), r, repeat::<T>(old(bin)@, count as nat)),
        r matches Ok(v) ==> v.len() == count,
{
    let ghost body = bin@;
    let ghost mut taken: nat = 0;
    let mut result: Vec<T> = Vec::new();
    let mut done: u32 = 0;
    assert(result.deep_view() =~= Seq::<T::V>::empty());
    assert(body.skip(0) =~= body);
    while done < count
        invariant
            done <= count,
            body == old(bin)@,
            bin.beyond() == old(bin).beyond(),
            taken <= body.len(),
            bin@ == body.skip(taken as int),
            result.len() == done,
            repeat::<T>(body, done as nat) == Ok::<(Seq<T::V>, nat), Error>((result.deep_view(), taken)),
        decreases count - done,
    {
        let ghost front = result.deep_view();
        match T::parse(bin) {
            Ok(element) => {
                proof {
                    if let Ok((_, m)) = T::grammar(body.skip(taken as int)) {
                        taken = taken + m;
                    }
                }
                result.push(element);
                assert(result.deep_view() =~= front.push(element.deep_view()));
            },
            Err(e) => {
                proof {
                    lemma_repeat_fails::<T>(body, (done + 1) as nat, count as nat);
                }
                return Err(e);
            },
        }
        done = done + 1;
    }
    Ok(result)
}

impl<T: WasmBinaryGrammar> WasmBinaryGrammar for Vec<T> {
    open spec fn grammar(s: Seq<u8>) -> Parsed<Seq<T::V>> {
        vec_grammar::<T>(s)
    }
}

impl<T: WasmBinaryParse> WasmBinaryParse for Vec<T> {
    fn parse(bin: &mut Source) -> (r: Result<Self, Error>) {
        let count = u32::parse(bin)?;
        parse_repeat::<T>(bin, count)
    }
}

/// A vector that is stored as runs: a count, and then for each run its length
/// and its element.
#[derive(Debug, PartialEq)]
pub struct CompactVec<T>(pub Vec<T>);

impl<T: DeepView> DeepView for CompactVec<T> {
    type V = Seq<T::V>;

    open spec fn deep_view(&self) -> Seq<T::V> {
        self.0.deep_view()
    }
}

/// The grammar of `count` runs in a row: all but the last of them, and then
/// the last, which is a length and an element.
pub open spec fn runs<T: WasmBinaryGrammar>(s: Seq<u8>, count: nat) -> Parsed<Seq<T::V>>
    decreases count,
{
    if count == 0 {
        Ok((Seq::empty(), 0))
    } else {
        match runs::<T>(s, (count - 1) as nat) {
            Err(e) => Err(e),
            Ok((front, n)) => match u32_grammar(s.skip(n as int)) {
                Err(e) => Err(e),
                Ok((length, a)) => match T::grammar(s.skip(n as int).skip(a as int)) {
                    Err(e) => Err(e),
                    Ok((element, b)) => Ok((front + Seq::new(length as nat, |k: int| element), n + a + b)),
                },
            },
        }
    }
}

/// Where a shorter row of runs fails, every longer one fails in the same way.
pub proof fn lemma_runs_fails<T: WasmBinaryGrammar>(s: Seq<u8>, short: nat, long: nat)
    requires
        short <= long,
        runs::<T>(s, short) is Err,
    ensures
        runs::<T>(s, long) == runs::<T>(s, short),
    decreases long,
{
    if short < long {
        lemma_runs_fails::<T>(s, short, (long - 1) as nat);
    }
}

/// The grammar of a compact vector: the number of runs, then the runs.
pub open spec fn compact_vec_grammar<T: WasmBinaryGrammar>(s: Seq<u8>) -> Parsed<Seq<T::V>> {
    match u32_grammar(s) {
        Err(e) => Err(e),
        Ok((count, n)) => match runs::<T>(s.skip(n as int), count as nat) {
            Err(e) => Err(e),
            Ok((elements, m)) => Ok((elements, n + m)),
        },
    }
}

/// A row of runs is read from its own bytes, if each element is.
pub proof fn lemma_runs_local<T: WasmBinaryGrammar>(s: Seq<u8>, t: Seq<u8>, count: nat)
    requires
        reads_its_bytes::<T>(),
    ensures
        local(s, t, runs::<T>(s, count), runs::<T>(t, count)),
    decreases count,
{
    if count > 0 && runs::<T>(s, count) is Ok {
        lemma_runs_local::<T>(s, t, (count - 1) as nat);
        let n = runs::<T>(s, (count - 1) as nat)->Ok_0.1;
        let here = s.skip(n as int);
        let there = t.skip(n as int);
        lemma_u32_local(here, there);
        let a = u32_grammar(here)->Ok_0.1;
        let inner = here.skip(a as int);
        let other = there.skip(a as int);
        assert(local(inner, other, T::grammar(inner), T::grammar(other)));
        let total = runs::<T>(s, count)->Ok_0.1;
        if total <= t.len() && t.take(total as int) == s.take(total as int) {
            lemma_agree(s, t, n, total);
            lemma_agree(here, there, a, (total - n) as nat);
        }
    }
}

/// A compact vector is read from its own bytes, if each of its elements is.
pub proof fn lemma_compact_vec_local<T: WasmBinaryGrammar>(s: Seq<u8>, t: Seq<u8>)
    requires
        reads_its_bytes::<T>(),
    ensures
        local(s, t, compact_vec_grammar::<T>(s), compact_vec_grammar::<T>(t)),
{
    lemma_u32_local(s, t);
    if compact_vec_grammar::<T>(s) is Ok {
        let (count, a) = u32_grammar(s)->Ok_0;
        let n = compact_vec_grammar::<T>(s)->Ok_0.1;
        lemma_runs_local::<T>(s.skip(a as int), t.skip(a as int), count as nat);
        if n <= t.len() && t.take(n as int) == s.take(n as int) {
            lemma_agree(s, t, a, n);
        }
    }
}

impl<T: WasmBinaryGrammar> WasmBinaryGrammar for CompactVec<T> {
    open spec fn grammar(s: Seq<u8>) -> Parsed<Seq<T::V>> {
        compact_vec_grammar::<T>(s)
    }
}

impl<T: WasmBinaryParse + Copy> WasmBinaryParse for CompactVec<T> {
    fn parse(bin: &mut Source) -> (r: Result<Self, Error>) {
        let mut result: Vec<T> = Vec::new();
        let count = u32::parse(bin)?;
        let ghost body = bin@;
        let ghost mut taken: nat = 0;
        let mut done: u32 = 0;
        assert(result.deep_view() =~= Seq::<T::V>::empty());
        assert(body.skip(0) =~= body);
        while done < count
            invariant
                done <= count,
                u32_grammar(old(bin)@) is Ok,
                u32_grammar(old(bin)@)->Ok_0.0 == count,
                body == old(bin)@.skip(u32_grammar(old(bin)@)->Ok_0.1 as int),
                bin.beyond() == old(bin).beyond(),
                taken <= body.len(),
                bin@ == body.skip(taken as int),
                runs::<T>(body, done as nat) == Ok::<(Seq<T::V>, nat), Error>((result.deep_view(), taken)),
            decreases count - done,
        {
            let ghost front = result.deep_view();
            let length = match u32::parse(bin) {
                Ok(length) => length,
                Err(e) => {
                    proof {
                        lemma_runs_fails::<T>(body, (done + 1) as nat, count as nat);
                    }
                    return Err(e);
                },
            };
            let ghost a = u32_grammar(body.skip(taken as int))->Ok_0.1;
            let element = match T::parse(bin) {
                Ok(element) => element,
                Err(e) => {
                    proof {
                        lemma_runs_fails::<T>(body, (done + 1) as nat, count as nat);
                    }
                    return Err(e);
                },
            };
            let ghost b = T::grammar(body.skip(taken as int).skip(a as int))->Ok_0.1;
            let mut pushed: u32 = 0;
            while pushed < length
                invariant
                    pushed <= length,
                    result.deep_view() == front + Seq::new(pushed as nat, |k: int| element.deep_view()),
                decreases length - pushed,
            {
                let ghost before = result.deep_view();
                result.push(element);
                pushed = pushed + 1;
                assert(result.deep_view() =~= before.push(element.deep_view()));
                assert(result.deep_view() =~= front + Seq::new(pushed as nat, |k: int| element.deep_view()));
            }
            proof {
                taken = taken + a + b;
            }
            done = done + 1;
        }
        Ok(CompactVec(result))
    }
}

impl<T: WasmBinaryParse + Copy> WasmBinaryParseProxy for CompactVec<T> {
    type Inner = Vec<T>;

    open spec fn proxy_view(inner: &Vec<T>) -> Seq<T::V> {
        inner.deep_view()
    }

    fn unwrap(self) -> (r: Vec<T>) {
        self.0
    }
}

/// A vector that is stored as a vector of proxies and holds what they stand
/// for.
pub struct UnwrappingVec<T: WasmBinaryParseProxy>(pub Vec<T::Inner>);

/// The views of the proxies that stand for the elements of `inner`.
pub open spec fn proxy_views<T: WasmBinaryParseProxy>(inner: Seq<T::Inner>) -> Seq<T::V> {
    Seq::new(inner.len(), |i: int| T::proxy_view(&inner[i]))
}

impl<T: WasmBinaryParseProxy> DeepView for UnwrappingVec<T> {
    type V = Seq<T::V>;

    open spec fn deep_view(&self) -> Seq<T::V> {
        proxy_views::<T>(self.0@)
    }
}

impl<T: WasmBinaryParseProxy> WasmBinaryGrammar for UnwrappingVec<T> {
    open spec fn grammar(s: Seq<u8>) -> Parsed<Seq<T::V>> {
        vec_grammar::<T>(s)
    }
}

impl<T: WasmBinaryParseProxy> WasmBinaryParse for UnwrappingVec<T> {
    fn parse(bin: &mut Source) -> (r: Result<Self, Error>) {
        let count = u32::parse(bin)?;
        let ghost body = bin@;
        let ghost mut taken: nat = 0;
        let mut result: Vec<T::Inner> = Vec::new();
        let mut done: u32 = 0;
        assert(proxy_views::<T>(result@) =~= Seq::<T::V>::empty());
        assert(body.skip(0) =~= body);
        while done < count
            invariant
                done <= count,
                u32_grammar(old(bin)@) is Ok,
                u32_grammar(old(bin)@)->Ok_0.0 == count,
                body == old(bin)@.skip(u32_grammar(old(bin)@)->Ok_0.1 as int),
                bin.beyond() == old(bin).beyond(),
                taken <= body.len(),
                bin@ == body.skip(taken as int),
                repeat::<T>(body, done as nat) == Ok::<(Seq<T::V>, nat), Error>((proxy_views::<T>(result@), taken)),
            decreases count - done,
        {
            let ghost front = proxy_views::<T>(result@);
            match T::parse(bin) {
                Ok(proxy) => {
                    proof {
                        if let Ok((_, m)) = T::grammar(body.skip(taken as int)) {
                            taken = taken + m;
                        }
                    }
                    let ghost view = proxy.deep_view();
                    let element = proxy.unwrap();
                    result.push(element);
                    assert(proxy_views::<T>(result@) =~= front.push(view));
                },
                Err(e) => {
                    proof {
                        lemma_repeat_fails::<T>(body, (done + 1) as nat, count as nat);
                    }
                    return Err(e);
                },
            }
            done = done + 1;
        }
        Ok(UnwrappingVec(result))
    }
}

impl<T: WasmBinaryParseProxy> WasmBinaryParseProxy for UnwrappingVec<T> {
    type Inner = Vec<T::Inner>;

    open spec fn proxy_view(inner: &Vec<T::Inner>) -> Seq<T::V> {
        proxy_views::<T>(inner@)
    }

    fn unwrap(self) -> (r: Vec<T::Inner>) {
        self.0
    }
}

} // verus!
