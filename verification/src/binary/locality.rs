//! The bytes that a decoder reads.
//!
//! Every part of a module is read from its own bytes: what follows the bytes
//! that a part takes up does not change what is decoded.  So the size that
//! stands before the content of a section is held to: with a size that is off
//! by one, the section is not decoded.

use vstd::prelude::*;
use crate::binary::idx::{lemma_func_index_reads_its_bytes, lemma_type_index_reads_its_bytes};
use crate::binary::instr::{expr_grammar, lemma_expr_local};
use crate::binary::module::{
    code_grammar, data_grammar, elem_grammar, export_desc_grammar, export_grammar, global_entry_grammar,
    import_desc_grammar, import_grammar, section_grammar, Progress,
};
use crate::binary::primitive::byte::{lemma_byte_local, lemma_byte_reads_its_bytes, Byte};
use crate::binary::primitive::sized::{
    lemma_sized_reads_its_bytes, lemma_wrong_size_fails, sized_grammar, window, Sized,
};
use crate::binary::primitive::string::{lemma_string_local, string_grammar};
use crate::binary::primitive::traits::{lemma_agree, local, reads_its_bytes, WasmBinaryGrammar};
use crate::binary::primitive::unsigned::{lemma_u32_local, u32_grammar};
use crate::binary::primitive::vec::{
    compact_vec_grammar, lemma_compact_vec_local, lemma_vec_local, lemma_vec_reads_its_bytes,
};
use crate::binary::ty::{
    global_grammar, lemma_func_reads_its_bytes, lemma_global_local, lemma_mem_local, lemma_table_local,
    lemma_val_reads_its_bytes,
};
use crate::structure::idx;
use crate::structure::module::{Data, Elem, Export, Func, Global, Import, Mem, Start, Table};
use crate::structure::ty;

verus! {

/// The code of a function is read from its own bytes.
pub proof fn lemma_code_local(s: Seq<u8>, t: Seq<u8>)
    ensures
        local(s, t, code_grammar(s), code_grammar(t)),
{
    lemma_val_reads_its_bytes();
    lemma_compact_vec_local::<ty::Val>(s, t);
    if let Ok((_, n)) = code_grammar(s) {
        let a = compact_vec_grammar::<ty::Val>(s)->Ok_0.1;
        lemma_expr_local(s.skip(a as int), t.skip(a as int));
        if n <= t.len() && t.take(n as int) == s.take(n as int) {
            lemma_agree(s, t, a, n);
        }
    }
}

/// A global is read from its own bytes.
pub proof fn lemma_global_entry_local(s: Seq<u8>, t: Seq<u8>)
    ensures
        local(s, t, global_entry_grammar(s), global_entry_grammar(t)),
{
    lemma_global_local(s, t);
    if let Ok((_, n)) = global_entry_grammar(s) {
        let a = global_grammar(s)->Ok_0.1;
        lemma_expr_local(s.skip(a as int), t.skip(a as int));
        if n <= t.len() && t.take(n as int) == s.take(n as int) {
            lemma_agree(s, t, a, n);
        }
    }
}

/// A table segment is read from its own bytes.
pub proof fn lemma_elem_local(s: Seq<u8>, t: Seq<u8>)
    ensures
        local(s, t, elem_grammar(s), elem_grammar(t)),
{
    lemma_func_index_reads_its_bytes();
    lemma_u32_local(s, t);
    if let Ok((_, n)) = elem_grammar(s) {
        let a = u32_grammar(s)->Ok_0.1;
        let here = s.skip(a as int);
        let there = t.skip(a as int);
        lemma_expr_local(here, there);
        let b = expr_grammar(here)->Ok_0.1;
        lemma_vec_local::<idx::Func>(here.skip(b as int), there.skip(b as int));
        if n <= t.len() && t.take(n as int) == s.take(n as int) {
            lemma_agree(s, t, a, n);
            lemma_agree(here, there, b, (n - a) as nat);
        }
    }
}

/// A memory segment is read from its own bytes.
pub proof fn lemma_data_local(s: Seq<u8>, t: Seq<u8>)
    ensures
        local(s, t, data_grammar(s), data_grammar(t)),
{
    lemma_byte_reads_its_bytes();
    lemma_u32_local(s, t);
    if let Ok((_, n)) = data_grammar(s) {
        let a = u32_grammar(s)->Ok_0.1;
        let here = s.skip(a as int);
        let there = t.skip(a as int);
        lemma_expr_local(here, there);
        let b = expr_grammar(here)->Ok_0.1;
        lemma_vec_local::<Byte>(here.skip(b as int), there.skip(b as int));
        if n <= t.len() && t.take(n as int) == s.take(n as int) {
            lemma_agree(s, t, a, n);
            lemma_agree(here, there, b, (n - a) as nat);
        }
    }
}

/// What is imported is read from its own bytes.
pub proof fn lemma_import_desc_local(s: Seq<u8>, t: Seq<u8>)
    ensures
        local(s, t, import_desc_grammar(s), import_desc_grammar(t)),
{
    lemma_byte_local(s, t);
    if let Ok((_, n)) = import_desc_grammar(s) {
        lemma_u32_local(s.skip(1), t.skip(1));
        lemma_table_local(s.skip(1), t.skip(1));
        lemma_mem_local(s.skip(1), t.skip(1));
        lemma_global_local(s.skip(1), t.skip(1));
        if n <= t.len() && t.take(n as int) == s.take(n as int) {
            lemma_agree(s, t, 1, n);
        }
    }
}

/// What is exported is read from its own bytes.
pub proof fn lemma_export_desc_local(s: Seq<u8>, t: Seq<u8>)
    ensures
        local(s, t, export_desc_grammar(s), export_desc_grammar(t)),
{
    lemma_byte_local(s, t);
    if let Ok((_, n)) = export_desc_grammar(s) {
        lemma_u32_local(s.skip(1), t.skip(1));
        if n <= t.len() && t.take(n as int) == s.take(n as int) {
            lemma_agree(s, t, 1, n);
        }
    }
}

/// An import is read from its own bytes.
pub proof fn lemma_import_local(s: Seq<u8>, t: Seq<u8>)
    ensures
        local(s, t, import_grammar(s), import_grammar(t)),
{
    lemma_string_local(s, t);
    if let Ok((_, n)) = import_grammar(s) {
        let a = string_grammar(s)->Ok_0.1;
        let here = s.skip(a as int);
        let there = t.skip(a as int);
        lemma_string_local(here, there);
        let b = string_grammar(here)->Ok_0.1;
        lemma_import_desc_local(here.skip(b as int), there.skip(b as int));
        if n <= t.len() && t.take(n as int) == s.take(n as int) {
            lemma_agree(s, t, a, n);
            lemma_agree(here, there, b, (n - a) as nat);
        }
    }
}

/// An export is read from its own bytes.
pub proof fn lemma_export_local(s: Seq<u8>, t: Seq<u8>)
    ensures
        local(s, t, export_grammar(s), export_grammar(t)),
{
    lemma_string_local(s, t);
    if let Ok((_, n)) = export_grammar(s) {
        let a = string_grammar(s)->Ok_0.1;
        lemma_export_desc_local(s.skip(a as int), t.skip(a as int));
        if n <= t.len() && t.take(n as int) == s.take(n as int) {
            lemma_agree(s, t, a, n);
        }
    }
}

/// Every part of a module that a section holds is read from its own bytes.
pub proof fn lemma_parts_read_their_bytes()
    ensures
        reads_its_bytes::<ty::Func>(),
        reads_its_bytes::<Import>(),
        reads_its_bytes::<idx::Type>(),
        reads_its_bytes::<Table>(),
        reads_its_bytes::<Mem>(),
        reads_its_bytes::<Global>(),
        reads_its_bytes::<Export>(),
        reads_its_bytes::<Start>(),
        reads_its_bytes::<Elem>(),
        reads_its_bytes::<Sized<Func>>(),
        reads_its_bytes::<Data>(),
{
    lemma_func_reads_its_bytes();
    lemma_type_index_reads_its_bytes();
    assert forall|s: Seq<u8>, t: Seq<u8>|
        #![trigger Import::grammar(s), Import::grammar(t)]
        local(s, t, Import::grammar(s), Import::grammar(t)) by {
        lemma_import_local(s, t);
    }
    assert forall|s: Seq<u8>, t: Seq<u8>|
        #![trigger Table::grammar(s), Table::grammar(t)]
        local(s, t, Table::grammar(s), Table::grammar(t)) by {
        lemma_table_local(s, t);
    }
    assert forall|s: Seq<u8>, t: Seq<u8>|
        #![trigger Mem::grammar(s), Mem::grammar(t)]
        local(s, t, Mem::grammar(s), Mem::grammar(t)) by {
        lemma_mem_local(s, t);
    }
    assert forall|s: Seq<u8>, t: Seq<u8>|
        #![trigger Global::grammar(s), Global::grammar(t)]
        local(s, t, Global::grammar(s), Global::grammar(t)) by {
        lemma_global_entry_local(s, t);
    }
    assert forall|s: Seq<u8>, t: Seq<u8>|
        #![trigger Export::grammar(s), Export::grammar(t)]
        local(s, t, Export::grammar(s), Export::grammar(t)) by {
        lemma_export_local(s, t);
    }
    assert forall|s: Seq<u8>, t: Seq<u8>|
        #![trigger Start::grammar(s), Start::grammar(t)]
        local(s, t, Start::grammar(s), Start::grammar(t)) by {
        lemma_u32_local(s, t);
    }
    assert forall|s: Seq<u8>, t: Seq<u8>|
        #![trigger Elem::grammar(s), Elem::grammar(t)]
        local(s, t, Elem::grammar(s), Elem::grammar(t)) by {
        lemma_elem_local(s, t);
    }
    assert forall|s: Seq<u8>, t: Seq<u8>|
        #![trigger Func::grammar(s), Func::grammar(t)]
        local(s, t, Func::grammar(s), Func::grammar(t)) by {
        lemma_code_local(s, t);
    }
    lemma_sized_reads_its_bytes::<Func>();
    assert forall|s: Seq<u8>, t: Seq<u8>|
        #![trigger Data::grammar(s), Data::grammar(t)]
        local(s, t, Data::grammar(s), Data::grammar(t)) by {
        lemma_data_local(s, t);
    }
}

/// Whether `size` is the encoding of the number `n`, and nothing else.
pub open spec fn encodes(size: Seq<u8>, n: nat) -> bool {
    u32_grammar(size) is Ok && u32_grammar(size)->Ok_0.0 == n && u32_grammar(size)->Ok_0.1 == size.len()
}

/// Where a size and `body` are a sized value of `T` and the size is the
/// length of `body`, `body` is a value of `T` and nothing else.
pub proof fn lemma_sized_content<T: WasmBinaryGrammar>(size: Seq<u8>, body: Seq<u8>)
    requires
        encodes(size, body.len()),
        sized_grammar::<T>(size + body) is Ok,
    ensures
        T::grammar(body) is Ok,
        T::grammar(body)->Ok_0.1 == body.len(),
{
    let all = size + body;
    lemma_u32_local(size, all);
    assert(all.take(size.len() as int) =~= size.take(size.len() as int));
    assert(window(all.skip(size.len() as int), body.len()) =~= body);
}

/// A sized value with a size that is off by one is not decoded: where `good`
/// is the length of `body` and with it `body` is a sized value of `T`, but
/// `bad` is a number one above or one below, the bytes `bad + body + rest`
/// are not a sized value of `T`, whatever `rest` is.
pub proof fn lemma_off_by_one<T: WasmBinaryGrammar>(good: Seq<u8>, bad: Seq<u8>, body: Seq<u8>, rest: Seq<u8>)
    requires
        reads_its_bytes::<T>(),
        encodes(good, body.len()),
        sized_grammar::<T>(good + body) is Ok,
        encodes(bad, body.len() + 1) || encodes(bad, (body.len() - 1) as nat) && body.len() > 0,
    ensures
        sized_grammar::<T>(bad + body + rest) is Err,
{
    lemma_sized_content::<T>(good, body);
    lemma_wrong_size_fails::<T>(bad, body, rest);
}

/// Every section but a custom section is held to its size: where the section
/// with the id `id` is decoded from the size `good`, which is the length of
/// `body`, and from `body`, it is not decoded from a size `bad` that is one
/// above or one below, whatever follows `body`.
pub proof fn lemma_section_is_held_to_its_size(
    id: u8,
    good: Seq<u8>,
    bad: Seq<u8>,
    body: Seq<u8>,
    rest: Seq<u8>,
    before: Progress,
)
    requires
        id != 0x00,
        encodes(good, body.len()),
        section_grammar(id, good + body, before) is Ok,
        encodes(bad, body.len() + 1) || encodes(bad, (body.len() - 1) as nat) && body.len() > 0,
    ensures
        section_grammar(id, bad + body + rest, before) is Err,
{
    reveal(section_grammar);
    lemma_parts_read_their_bytes();
    if id == 0x01 {
        lemma_vec_reads_its_bytes::<ty::Func>();
        lemma_off_by_one::<Vec<ty::Func>>(good, bad, body, rest);
    } else if id == 0x02 {
        lemma_vec_reads_its_bytes::<Import>();
        lemma_off_by_one::<Vec<Import>>(good, bad, body, rest);
    } else if id == 0x03 {
        lemma_vec_reads_its_bytes::<idx::Type>();
        lemma_off_by_one::<Vec<idx::Type>>(good, bad, body, rest);
    } else if id == 0x04 {
        lemma_vec_reads_its_bytes::<Table>();
        lemma_off_by_one::<Vec<Table>>(good, bad, body, rest);
    } else if id == 0x05 {
        lemma_vec_reads_its_bytes::<Mem>();
        lemma_off_by_one::<Vec<Mem>>(good, bad, body, rest);
    } else if id == 0x06 {
        lemma_vec_reads_its_bytes::<Global>();
        lemma_off_by_one::<Vec<Global>>(good, bad, body, rest);
    } else if id == 0x07 {
        lemma_vec_reads_its_bytes::<Export>();
        lemma_off_by_one::<Vec<Export>>(good, bad, body, rest);
    } else if id == 0x08 {
        lemma_off_by_one::<Start>(good, bad, body, rest);
    } else if id == 0x09 {
        lemma_vec_reads_its_bytes::<Elem>();
        lemma_off_by_one::<Vec<Elem>>(good, bad, body, rest);
    } else if id == 0x0A {
        lemma_vec_reads_its_bytes::<Sized<Func>>();
        lemma_off_by_one::<Vec<Sized<Func>>>(good, bad, body, rest);
    } else if id == 0x0B {
        lemma_vec_reads_its_bytes::<Data>();
        lemma_off_by_one::<Vec<Data>>(good, bad, body, rest);
    }
}

} // verus!
