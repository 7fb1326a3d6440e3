//! Decoding of a module.
//!
//! A module is stored as a preamble of eight bytes and then its sections.
//! Each section is an id, one byte, and a sized body.  The sections with an id
//! other than 0 come in the order of their ids, each at most once; custom
//! sections, whose id is 0, may stand anywhere and are skipped.

use vstd::prelude::*;
use crate::source::Source;
use crate::binary::error::Error;
use crate::binary::instr::{after, expr_grammar, parse_expr};
use crate::binary::primitive::byte::{byte_grammar, lemma_repeat_bytes, Byte};
use crate::binary::primitive::sized::{lemma_sized_ignores_what_follows, sized_grammar, Consume, Sized};
use crate::binary::primitive::string::string_grammar;
use crate::binary::primitive::traits::{Parsed, parses, WasmBinaryGrammar, WasmBinaryParse, WasmBinaryParseProxy};
use crate::binary::primitive::unsigned::u32_grammar;
use crate::binary::primitive::vec::{compact_vec_grammar, proxy_views, vec_grammar, CompactVec, UnwrappingVec};
use crate::binary::ty::{global_grammar, mem_grammar, table_grammar};
use crate::structure::idx;
use crate::structure::instr::{ConstExpr, Expr, InstrView};
use crate::structure::module::{
    desc, empty_module, Data, DataView, Elem, ElemView, Export, ExportView, Func, FuncView, Global, GlobalView,
    Import, ImportView, Mem, Module, ModuleView, Start, Table,
};
use crate::structure::ty;

verus! {

broadcast use vstd::seq_lib::lemma_seq_skip_of_skip;

impl WasmBinaryGrammar for ConstExpr {
    open spec fn grammar(s: Seq<u8>) -> Parsed<Seq<InstrView>> {
        expr_grammar(s)
    }
}

impl WasmBinaryParse for ConstExpr {
    fn parse(bin: &mut Source) -> (r: Result<Self, Error>) {
        let Expr(instrs) = parse_expr(bin)?;
        Ok(ConstExpr(instrs))
    }
}

/// The grammar of a function's code: the types of its locals, stored as runs,
/// and its body.  Its type is stored elsewhere and stands as 0 here.
pub open spec fn code_grammar(s: Seq<u8>) -> Parsed<FuncView> {
    match compact_vec_grammar::<ty::Val>(s) {
        Err(e) => Err(e),
        Ok((locals, n)) => match expr_grammar(s.skip(n as int)) {
            Err(e) => Err(e),
            Ok((body, a)) => Ok((FuncView { ty: idx::Type(0), locals, body }, n + a)),
        },
    }
}

impl WasmBinaryGrammar for Func {
    open spec fn grammar(s: Seq<u8>) -> Parsed<FuncView> {
        code_grammar(s)
    }
}

impl WasmBinaryParse for Func {
    fn parse(bin: &mut Source) -> (r: Result<Self, Error>) {
        let locals = CompactVec::<ty::Val>::parse(bin)?.unwrap();
        let body = parse_expr(bin)?;
        assert(locals.deep_view() =~= locals@);
        Ok(Func { ty: idx::Type(0), locals, body })
    }
}

impl WasmBinaryGrammar for Table {
    open spec fn grammar(s: Seq<u8>) -> Parsed<Table> {
        match table_grammar(s) {
            Err(e) => Err(e),
            Ok((ty, n)) => Ok((Table { ty }, n)),
        }
    }
}

impl WasmBinaryParse for Table {
    fn parse(bin: &mut Source) -> (r: Result<Self, Error>) {
        Ok(Table { ty: ty::Table::parse(bin)? })
    }
}

impl WasmBinaryGrammar for Mem {
    open spec fn grammar(s: Seq<u8>) -> Parsed<Mem> {
        match mem_grammar(s) {
            Err(e) => Err(e),
            Ok((ty, n)) => Ok((Mem { ty }, n)),
        }
    }
}

impl WasmBinaryParse for Mem {
    fn parse(bin: &mut Source) -> (r: Result<Self, Error>) {
        Ok(Mem { ty: ty::Mem::parse(bin)? })
    }
}

/// The grammar of a global: its type, then its initializer.
pub open spec fn global_entry_grammar(s: Seq<u8>) -> Parsed<GlobalView> {
    match global_grammar(s) {
        Err(e) => Err(e),
        Ok((ty, n)) => match expr_grammar(s.skip(n as int)) {
            Err(e) => Err(e),
            Ok((init, a)) => Ok((GlobalView { ty, init }, n + a)),
        },
    }
}

impl WasmBinaryGrammar for Global {
    open spec fn grammar(s: Seq<u8>) -> Parsed<GlobalView> {
        global_entry_grammar(s)
    }
}

impl WasmBinaryParse for Global {
    fn parse(bin: &mut Source) -> (r: Result<Self, Error>) {
        let ty = ty::Global::parse(bin)?;
        let init = ConstExpr::parse(bin)?;
        Ok(Global { ty, init })
    }
}

/// The grammar of a table segment: the table, the offset, the functions.
pub open spec fn elem_grammar(s: Seq<u8>) -> Parsed<ElemView> {
    match u32_grammar(s) {
        Err(e) => Err(e),
        Ok((table, n)) => match expr_grammar(s.skip(n as int)) {
            Err(e) => Err(e),
            Ok((offset, a)) => match vec_grammar::<idx::Func>(s.skip(n as int).skip(a as int)) {
                Err(e) => Err(e),
                Ok((init, b)) => Ok((ElemView { table: idx::Table(table), offset, init }, n + a + b)),
            },
        },
    }
}

impl WasmBinaryGrammar for Elem {
    open spec fn grammar(s: Seq<u8>) -> Parsed<ElemView> {
        elem_grammar(s)
    }
}

impl WasmBinaryParse for Elem {
    fn parse(bin: &mut Source) -> (r: Result<Self, Error>) {
        let table = idx::Table::parse(bin)?;
        let offset = ConstExpr::parse(bin)?;
        let init = Vec::<idx::Func>::parse(bin)?;
        assert(init.deep_view() =~= init@);
        Ok(Elem { table, offset, init })
    }
}

/// The grammar of a memory segment: the memory, the offset, the bytes.
pub open spec fn data_grammar(s: Seq<u8>) -> Parsed<DataView> {
    match u32_grammar(s) {
        Err(e) => Err(e),
        Ok((mem, n)) => match expr_grammar(s.skip(n as int)) {
            Err(e) => Err(e),
            Ok((offset, a)) => match vec_grammar::<Byte>(s.skip(n as int).skip(a as int)) {
                Err(e) => Err(e),
                Ok((init, b)) => Ok((DataView { mem: idx::Mem(mem), offset, init }, n + a + b)),
            },
        },
    }
}

impl WasmBinaryGrammar for Data {
    open spec fn grammar(s: Seq<u8>) -> Parsed<DataView> {
        data_grammar(s)
    }
}

impl WasmBinaryParse for Data {
    fn parse(bin: &mut Source) -> (r: Result<Self, Error>) {
        let mem = idx::Mem::parse(bin)?;
        let offset = ConstExpr::parse(bin)?;
        let init = UnwrappingVec::<Byte>::parse(bin)?.unwrap();
        assert(proxy_views::<Byte>(init@) =~= init@);
        Ok(Data { mem, offset, init })
    }
}

impl WasmBinaryGrammar for Start {
    open spec fn grammar(s: Seq<u8>) -> Parsed<Start> {
        match u32_grammar(s) {
            Err(e) => Err(e),
            Ok((func, n)) => Ok((Start { func: idx::Func(func) }, n)),
        }
    }
}

impl WasmBinaryParse for Start {
    fn parse(bin: &mut Source) -> (r: Result<Self, Error>) {
        Ok(Start { func: idx::Func::parse(bin)? })
    }
}

/// The grammar of what is imported: a byte that tells the kind, then the type.
pub open spec fn import_desc_grammar(s: Seq<u8>) -> Parsed<desc::Import> {
    match byte_grammar(s) {
        Err(e) => Err(e),
        Ok((id, n)) => if id == 0x00 {
            match u32_grammar(s.skip(n as int)) {
                Err(e) => Err(e),
                Ok((index, a)) => Ok((desc::Import::Func(idx::Type(index)), n + a)),
            }
        } else if id == 0x01 {
            match table_grammar(s.skip(n as int)) {
                Err(e) => Err(e),
                Ok((table, a)) => Ok((desc::Import::Table(table), n + a)),
            }
        } else if id == 0x02 {
            match mem_grammar(s.skip(n as int)) {
                Err(e) => Err(e),
                Ok((mem, a)) => Ok((desc::Import::Mem(mem), n + a)),
            }
        } else if id == 0x03 {
            match global_grammar(s.skip(n as int)) {
                Err(e) => Err(e),
                Ok((global, a)) => Ok((desc::Import::Global(global), n + a)),
            }
        } else {
            Err(Error::InvalidVariantId { id, ty: "module::desc::Import" })
        },
    }
}

impl WasmBinaryGrammar for desc::Import {
    open spec fn grammar(s: Seq<u8>) -> Parsed<desc::Import> {
        import_desc_grammar(s)
    }
}

impl WasmBinaryParse for desc::Import {
    fn parse(bin: &mut Source) -> (r: Result<Self, Error>) {
        let Byte(byte) = Byte::parse(bin)?;
        match byte {
            0x00 => Ok(desc::Import::Func(idx::Type::parse(bin)?)),
            0x01 => Ok(desc::Import::Table(ty::Table::parse(bin)?)),
            0x02 => Ok(desc::Import::Mem(ty::Mem::parse(bin)?)),
            0x03 => Ok(desc::Import::Global(ty::Global::parse(bin)?)),
            id => Err(Error::InvalidVariantId { id, ty: "module::desc::Import" }),
        }
    }
}

/// The grammar of what is exported: a byte that tells the kind, then the
/// index.
pub open spec fn export_desc_grammar(s: Seq<u8>) -> Parsed<desc::Export> {
    match byte_grammar(s) {
        Err(e) => Err(e),
        Ok((id, n)) => if id > 0x03 {
            Err(Error::InvalidVariantId { id, ty: "module::desc::Export" })
        } else {
            match u32_grammar(s.skip(n as int)) {
                Err(e) => Err(e),
                Ok((index, a)) => Ok(
                    (
                        if id == 0x00 {
                            desc::Export::Func(idx::Func(index))
                        } else if id == 0x01 {
                            desc::Export::Table(idx::Table(index))
                        } else if id == 0x02 {
                            desc::Export::Mem(idx::Mem(index))
                        } else {
                            desc::Export::Global(idx::Global(index))
                        },
                        n + a,
                    ),
                ),
            }
        },
    }
}

impl WasmBinaryGrammar for desc::Export {
    open spec fn grammar(s: Seq<u8>) -> Parsed<desc::Export> {
        export_desc_grammar(s)
    }
}

impl WasmBinaryParse for desc::Export {
    fn parse(bin: &mut Source) -> (r: Result<Self, Error>) {
        let Byte(byte) = Byte::parse(bin)?;
        match byte {
            0x00 => Ok(desc::Export::Func(idx::Func::parse(bin)?)),
            0x01 => Ok(desc::Export::Table(idx::Table::parse(bin)?)),
            0x02 => Ok(desc::Export::Mem(idx::Mem::parse(bin)?)),
            0x03 => Ok(desc::Export::Global(idx::Global::parse(bin)?)),
            id => Err(Error::InvalidVariantId { id, ty: "module::desc::Export" }),
        }
    }
}

/// The grammar of an import: two names, and what is imported.
pub open spec fn import_grammar(s: Seq<u8>) -> Parsed<ImportView> {
    match string_grammar(s) {
        Err(e) => Err(e),
        Ok((module, n)) => match string_grammar(s.skip(n as int)) {
            Err(e) => Err(e),
            Ok((name, a)) => match import_desc_grammar(s.skip(n as int).skip(a as int)) {
                Err(e) => Err(e),
                Ok((desc, b)) => Ok((ImportView { module, name, desc }, n + a + b)),
            },
        },
    }
}

impl WasmBinaryGrammar for Import {
    open spec fn grammar(s: Seq<u8>) -> Parsed<ImportView> {
        import_grammar(s)
    }
}

impl WasmBinaryParse for Import {
    fn parse(bin: &mut Source) -> (r: Result<Self, Error>) {
        let module = String::parse(bin)?;
        let name = String::parse(bin)?;
        let desc = desc::Import::parse(bin)?;
        Ok(Import { module, name, desc })
    }
}

/// The grammar of an export: a name, and what is exported.
pub open spec fn export_grammar(s: Seq<u8>) -> Parsed<ExportView> {
    match string_grammar(s) {
        Err(e) => Err(e),
        Ok((name, n)) => match export_desc_grammar(s.skip(n as int)) {
            Err(e) => Err(e),
            Ok((desc, a)) => Ok((ExportView { name, desc }, n + a)),
        },
    }
}

impl WasmBinaryGrammar for Export {
    open spec fn grammar(s: Seq<u8>) -> Parsed<ExportView> {
        export_grammar(s)
    }
}

impl WasmBinaryParse for Export {
    fn parse(bin: &mut Source) -> (r: Result<Self, Error>) {
        let name = String::parse(bin)?;
        let desc = desc::Export::parse(bin)?;
        Ok(Export { name, desc })
    }
}

/// What has been decoded of a module after some of its sections.
pub struct Progress {
    /// The module as far as it is known.
    pub module: ModuleView,
    /// The types of the functions, which the function section gives.
    pub func_types: Seq<idx::Type>,
}

/// `funcs`, each given its type from `types`.
pub open spec fn typed(funcs: Seq<FuncView>, types: Seq<idx::Type>) -> Seq<FuncView> {
    Seq::new(funcs.len(), |i: int| FuncView { ty: types[i], locals: funcs[i].locals, body: funcs[i].body })
}

/// The grammar of a custom section's body: its name, and then anything.  It
/// adds nothing to what is known of the module.
pub open spec fn custom_section(s: Seq<u8>, before: Progress) -> Parsed<Progress> {
    match sized_grammar::<(String, Consume)>(s) {
        Err(e) => Err(e),
        Ok((_, n)) => Ok((before, n)),
    }
}

/// The grammar of the type section's body, and what it adds to what is known
/// of the module.
pub open spec fn types_section(s: Seq<u8>, before: Progress) -> Parsed<Progress> {
    match sized_grammar::<Vec<ty::Func>>(s) {
        Err(e) => Err(e),
        Ok((types, n)) => Ok((Progress { module: ModuleView { types, ..before.module }, ..before }, n)),
    }
}

/// The grammar of the import section's body, and what it adds to what is known
/// of the module.
pub open spec fn imports_section(s: Seq<u8>, before: Progress) -> Parsed<Progress> {
    match sized_grammar::<Vec<Import>>(s) {
        Err(e) => Err(e),
        Ok((imports, n)) => Ok((Progress { module: ModuleView { imports, ..before.module }, ..before }, n)),
    }
}

/// The grammar of the table section's body, and what it adds to what is known
/// of the module.
pub open spec fn tables_section(s: Seq<u8>, before: Progress) -> Parsed<Progress> {
    match sized_grammar::<Vec<Table>>(s) {
        Err(e) => Err(e),
        Ok((tables, n)) => Ok((Progress { module: ModuleView { tables, ..before.module }, ..before }, n)),
    }
}

/// The grammar of the memory section's body, and what it adds to what is known
/// of the module.
pub open spec fn mems_section(s: Seq<u8>, before: Progress) -> Parsed<Progress> {
    match sized_grammar::<Vec<Mem>>(s) {
        Err(e) => Err(e),
        Ok((mems, n)) => Ok((Progress { module: ModuleView { mems, ..before.module }, ..before }, n)),
    }
}

/// The grammar of the global section's body, and what it adds to what is known
/// of the module.
pub open spec fn globals_section(s: Seq<u8>, before: Progress) -> Parsed<Progress> {
    match sized_grammar::<Vec<Global>>(s) {
        Err(e) => Err(e),
        Ok((globals, n)) => Ok((Progress { module: ModuleView { globals, ..before.module }, ..before }, n)),
    }
}

/// The grammar of the export section's body, and what it adds to what is known
/// of the module.
pub open spec fn exports_section(s: Seq<u8>, before: Progress) -> Parsed<Progress> {
    match sized_grammar::<Vec<Export>>(s) {
        Err(e) => Err(e),
        Ok((exports, n)) => Ok((Progress { module: ModuleView { exports, ..before.module }, ..before }, n)),
    }
}

/// The grammar of the element section's body, and what it adds to what is known
/// of the module.
pub open spec fn elem_section(s: Seq<u8>, before: Progress) -> Parsed<Progress> {
    match sized_grammar::<Vec<Elem>>(s) {
        Err(e) => Err(e),
        Ok((elem, n)) => Ok((Progress { module: ModuleView { elem, ..before.module }, ..before }, n)),
    }
}

/// The grammar of the data section's body, and what it adds to what is known
/// of the module.
pub open spec fn data_section(s: Seq<u8>, before: Progress) -> Parsed<Progress> {
    match sized_grammar::<Vec<Data>>(s) {
        Err(e) => Err(e),
        Ok((data, n)) => Ok((Progress { module: ModuleView { data, ..before.module }, ..before }, n)),
    }
}

/// The grammar of the function section's body: the type of each function.
pub open spec fn function_section(s: Seq<u8>, before: Progress) -> Parsed<Progress> {
    match sized_grammar::<Vec<idx::Type>>(s) {
        Err(e) => Err(e),
        Ok((func_types, n)) => Ok((Progress { func_types, ..before }, n)),
    }
}

/// The grammar of the start section's body: the start function.
pub open spec fn start_section(s: Seq<u8>, before: Progress) -> Parsed<Progress> {
    match sized_grammar::<Start>(s) {
        Err(e) => Err(e),
        Ok((start, n)) => Ok((Progress { module: ModuleView { start: Some(start), ..before.module }, ..before }, n)),
    }
}

/// The grammar of the code section's body: the code of each function, sized.
/// There must be as many as the function section gave types, and each takes
/// its type from there.
pub open spec fn code_section(s: Seq<u8>, before: Progress) -> Parsed<Progress> {
    match sized_grammar::<Vec<Sized<Func>>>(s) {
        Err(e) => Err(e),
        Ok((funcs, n)) => if funcs.len() != before.func_types.len() {
            Err(Error::UnexpectedEndOfFile)
        } else {
            Ok(
                (
                    Progress {
                        module: ModuleView { funcs: typed(funcs, before.func_types), ..before.module },
                        ..before
                    },
                    n,
                ),
            )
        },
    }
}

/// The grammar of the body of the section with the given id, and what it adds
/// to what is known of the module.
#[verifier::opaque]
pub open spec fn section_grammar(id: u8, s: Seq<u8>, before: Progress) -> Parsed<Progress> {
    match id {
        0x00 => custom_section(s, before),
        0x01 => types_section(s, before),
        0x02 => imports_section(s, before),
        0x03 => function_section(s, before),
        0x04 => tables_section(s, before),
        0x05 => mems_section(s, before),
        0x06 => globals_section(s, before),
        0x07 => exports_section(s, before),
        0x08 => start_section(s, before),
        0x09 => elem_section(s, before),
        0x0A => code_section(s, before),
        0x0B => data_section(s, before),
        _ => Err(Error::InvalidSectionId { id: Byte(id) }),
    }
}

/// Whether a section with the given id may follow a section with the id
/// `last_id`, custom sections not counted.
pub open spec fn in_order(id: u8, last_id: u8) -> bool {
    id == 0x00 || id > last_id
}

/// The id of the last section that is not a custom section, after a section
/// with the given id.
pub open spec fn last_after(id: u8, last_id: u8) -> u8 {
    if id == 0x00 {
        last_id
    } else {
        id
    }
}

/// The grammar of the sections of a module, from what is known before them to
/// the module.  `last_id` is the id of the last section before them that is
/// not a custom section, or 0.  When the bytes end, every function that the
/// function section announced must have got its code.
#[verifier::opaque]
pub open spec fn sections_grammar(s: Seq<u8>, before: Progress, last_id: u8) -> Result<ModuleView, Error>
    decreases s.len(),
{
    if s.len() == 0 {
        if before.module.funcs.len() != before.func_types.len() {
            Err(Error::UnexpectedEndOfFile)
        } else {
            Ok(before.module)
        }
    } else if !in_order(s[0], last_id) {
        Err(Error::UnexpectedSectionId { id: Byte(s[0]) })
    } else {
        match section_grammar(s[0], s.skip(1), before) {
            Err(e) => Err(e),
            Ok((next, n)) => sections_grammar(after(s.skip(1), n), next, last_after(s[0], last_id)),
        }
    }
}

/// The four bytes that every module starts with.
pub open spec fn magic() -> Seq<u8> {
    seq![0x00u8, 0x61u8, 0x73u8, 0x6Du8]
}

/// The four bytes of the one version of the format.
pub open spec fn version() -> Seq<u8> {
    seq![0x01u8, 0x00u8, 0x00u8, 0x00u8]
}

/// What is known of a module before its first section.
pub open spec fn nothing() -> Progress {
    Progress { module: empty_module(), func_types: Seq::empty() }
}

/// The grammar of a module: the magic bytes, the version, and sections up to
/// the end of the bytes.
pub open spec fn module_grammar(s: Seq<u8>) -> Parsed<ModuleView> {
    if s.len() < 4 {
        Err(Error::UnexpectedEndOfFile)
    } else if s.take(4) != magic() {
        Err(Error::InvalidPreambleMagic)
    } else if s.len() < 8 {
        Err(Error::UnexpectedEndOfFile)
    } else if s.skip(4).take(4) != version() {
        Err(Error::InvalidPreambleVersion)
    } else {
        match sections_grammar(s.skip(8), nothing(), 0) {
            Err(e) => Err(e),
            Ok(module) => Ok((module, s.len())),
        }
    }
}

/// What is known of a module while it is decoded.
pub open spec fn progress(module: &Module, func_types: &Vec<idx::Type>) -> Progress {
    Progress { module: module.deep_view(), func_types: func_types@ }
}

/// Holds when a call that found the source as `before`, left it as `after`
/// and returned `r` decoded a section as `spec` says, into `module` and
/// `func_types`.
pub open spec fn section_parsed(
    before: Source,
    after: Source,
    r: Result<(), Error>,
    spec: Parsed<Progress>,
    module: &Module,
    func_types: &Vec<idx::Type>,
) -> bool {
    &&& after.beyond() == before.beyond()
    &&& match spec {
        Err(e) => r == Err::<(), Error>(e),
        Ok((next, n)) => {
            &&& r is Ok
            &&& n <= before@.len()
            &&& after@ == before@.skip(n as int)
            &&& progress(module, func_types) == next
        },
    }
}

/// A section out of order is refused: where the next section is not a custom
/// section and its id is not above that of the last such section, decoding
/// fails at that id, whatever follows.
pub proof fn lemma_out_of_order_fails(s: Seq<u8>, before: Progress, last_id: u8)
    requires
        s.len() > 0,
        s[0] != 0x00,
        s[0] <= last_id,
    ensures
        sections_grammar(s, before, last_id) == Err::<ModuleView, Error>(
            Error::UnexpectedSectionId { id: Byte(s[0]) },
        ),
{
    reveal_with_fuel(sections_grammar, 1);
}

/// The ids of the sections that `s` is cut into by the sizes of the sections:
/// each section is its id, its size and as many bytes as its size says.
pub open spec fn section_ids(s: Seq<u8>) -> Seq<u8>
    decreases s.len(),
{
    if s.len() == 0 {
        Seq::empty()
    } else {
        match u32_grammar(s.skip(1)) {
            Err(_) => seq![s[0]],
            Ok((size, n)) => seq![s[0]] + section_ids(after(s.skip(1), n + size as nat)),
        }
    }
}

/// Whether the ids `ids` may follow a section with the id `last_id`, custom
/// sections not counted: those that are not 0 rise, each above the one before
/// it, the first above `last_id`.
pub open spec fn rising(ids: Seq<u8>, last_id: u8) -> bool
    decreases ids.len(),
{
    ids.len() == 0 || (in_order(ids[0], last_id) && rising(ids.skip(1), last_after(ids[0], last_id)))
}

/// A section takes up its size and as many bytes as its size says.
pub proof fn lemma_section_takes_its_size(id: u8, s: Seq<u8>, before: Progress)
    ensures
        section_grammar(id, s, before) matches Ok((_, n)) ==> u32_grammar(s) is Ok && n == u32_grammar(s)->Ok_0.1
            + u32_grammar(s)->Ok_0.0,
{
    reveal(section_grammar);
}

/// The section with the id 0 is a custom section.
pub proof fn lemma_custom_is_section(s: Seq<u8>, before: Progress)
    ensures
        section_grammar(0x00, s, before) == custom_section(s, before),
{
    reveal(section_grammar);
}

/// The sections of a module are in order: where the sections of `s` are
/// decoded, the ids of those that are not custom sections rise.
pub proof fn lemma_sections_in_order(s: Seq<u8>, before: Progress, last_id: u8)
    requires
        sections_grammar(s, before, last_id) is Ok,
    ensures
        rising(section_ids(s), last_id),
    decreases s.len(),
{
    reveal_with_fuel(sections_grammar, 1);
    if s.len() > 0 {
        lemma_section_takes_its_size(s[0], s.skip(1), before);
        let (next, n) = section_grammar(s[0], s.skip(1), before)->Ok_0;
        lemma_sections_in_order(after(s.skip(1), n), next, last_after(s[0], last_id));
        let ids = section_ids(s);
        assert(ids[0] == s[0]);
        assert(ids.skip(1) =~= section_ids(after(s.skip(1), n)));
    }
}

/// Whether `custom` is one custom section and nothing else: the id 0, and a
/// sized body that starts with a name.
pub open spec fn is_custom_section(custom: Seq<u8>) -> bool {
    &&& custom.len() > 0
    &&& custom[0] == 0x00
    &&& sized_grammar::<(String, Consume)>(custom.skip(1)) is Ok
    &&& sized_grammar::<(String, Consume)>(custom.skip(1))->Ok_0.1 == custom.len() - 1
}

/// A custom section is skipped: the sections `rest` are decoded to the same
/// module, or fail in the same way, with the custom section `custom` before
/// them as without it.
pub proof fn lemma_custom_section_skipped(custom: Seq<u8>, rest: Seq<u8>, before: Progress, last_id: u8)
    requires
        is_custom_section(custom),
    ensures
        sections_grammar(custom + rest, before, last_id) == sections_grammar(rest, before, last_id),
{
    reveal_with_fuel(sections_grammar, 1);
    let all = custom + rest;
    let body = custom.skip(1);
    let tail = all.skip(1);
    assert(tail.take(body.len() as int) =~= body);
    lemma_sized_ignores_what_follows::<(String, Consume)>(body, tail);
    lemma_custom_is_section(tail, before);
    assert(after(tail, body.len()) =~= rest);
}

/// A custom section before the first section of a module is skipped: with it
/// the bytes are decoded to the same module, or fail in the same way, as
/// without it.
pub proof fn lemma_module_skips_custom_section(custom: Seq<u8>, rest: Seq<u8>)
    requires
        is_custom_section(custom),
    ensures
        module_grammar(magic() + version() + custom + rest) matches Ok((module, _)) ==> module_grammar(
            magic() + version() + rest,
        ) is Ok && module_grammar(magic() + version() + rest)->Ok_0.0 == module,
        module_grammar(magic() + version() + custom + rest) matches Err(e) ==> module_grammar(
            magic() + version() + rest,
        ) == Err::<(ModuleView, nat), Error>(e),
{
    let with = magic() + version() + custom + rest;
    let without = magic() + version() + rest;
    assert(with.take(4) =~= magic());
    assert(without.take(4) =~= magic());
    assert(with.skip(4).take(4) =~= version());
    assert(without.skip(4).take(4) =~= version());
    assert(with.skip(8) =~= custom + rest);
    assert(without.skip(8) =~= rest);
    lemma_custom_section_skipped(custom, rest, nothing(), 0);
}

/// Decodes a value that is stored behind its size.
pub fn parse_sized<T: WasmBinaryParse>(bin: &mut Source) -> (r: Result<T, Error>)
    ensures
        parses(*old(bin), *final(bin), r, sized_grammar::<T>(old(bin)@)),
{
    Ok(Sized::<T>::parse(bin)?.unwrap())
}

/// Gives each function its type.
fn assign_types(funcs: &mut Vec<Func>, types: &Vec<idx::Type>)
    requires
        old(funcs).len() == types.len(),
    ensures
        final(funcs).deep_view() == typed(old(funcs).deep_view(), types@),
{
    let n = funcs.len();
    let mut i: usize = 0;
    while i < n
        invariant
            i <= n,
            n == funcs.len(),
            n == types.len(),
            funcs.len() == old(funcs).len(),
            forall|k: int| 0 <= k < i ==> (#[trigger] funcs[k]).deep_view() == typed(old(funcs).deep_view(), types@)[k],
            forall|k: int| i <= k < n ==> (#[trigger] funcs[k]) == old(funcs)[k],
        decreases n - i,
    {
        funcs[i].ty = types[i];
        i = i + 1;
    }
    assert(funcs.deep_view() =~= typed(old(funcs).deep_view(), types@));
}

/// Skips the body of a custom section.
fn parse_custom_section(bin: &mut Source, module: &Module, func_types: &Vec<idx::Type>) -> (r: Result<(), Error>)
    ensures
        section_parsed(
            *old(bin),
            *final(bin),
            r,
            custom_section(old(bin)@, progress(module, func_types)),
            module,
            func_types,
        ),
{
    let _ = parse_sized::<(String, Consume)>(bin)?;
    Ok(())
}

/// Decodes the body of the type section into `module`.
fn parse_types_section(bin: &mut Source, module: &mut Module, func_types: &Vec<idx::Type>) -> (r: Result<(), Error>)
    ensures
        section_parsed(
            *old(bin),
            *final(bin),
            r,
            types_section(old(bin)@, progress(old(module), func_types)),
            final(module),
            func_types,
        ),
{
    module.types = parse_sized::<Vec<ty::Func>>(bin)?;
    Ok(())
}

/// Decodes the body of the import section into `module`.
fn parse_imports_section(bin: &mut Source, module: &mut Module, func_types: &Vec<idx::Type>) -> (r: Result<(), Error>)
    ensures
        section_parsed(
            *old(bin),
            *final(bin),
            r,
            imports_section(old(bin)@, progress(old(module), func_types)),
            final(module),
            func_types,
        ),
{
    module.imports = parse_sized::<Vec<Import>>(bin)?;
    Ok(())
}

/// Decodes the body of the table section into `module`.
fn parse_tables_section(bin: &mut Source, module: &mut Module, func_types: &Vec<idx::Type>) -> (r: Result<(), Error>)
    ensures
        section_parsed(
            *old(bin),
            *final(bin),
            r,
            tables_section(old(bin)@, progress(old(module), func_types)),
            final(module),
            func_types,
        ),
{
    module.tables = parse_sized::<Vec<Table>>(bin)?;
    Ok(())
}

/// Decodes the body of the memory section into `module`.
fn parse_mems_section(bin: &mut Source, module: &mut Module, func_types: &Vec<idx::Type>) -> (r: Result<(), Error>)
    ensures
        section_parsed(
            *old(bin),
            *final(bin),
            r,
            mems_section(old(bin)@, progress(old(module), func_types)),
            final(module),
            func_types,
        ),
{
    module.mems = parse_sized::<Vec<Mem>>(bin)?;
    Ok(())
}

/// Decodes the body of the global section into `module`.
fn parse_globals_section(bin: &mut Source, module: &mut Module, func_types: &Vec<idx::Type>) -> (r: Result<(), Error>)
    ensures
        section_parsed(
            *old(bin),
            *final(bin),
            r,
            globals_section(old(bin)@, progress(old(module), func_types)),
            final(module),
            func_types,
        ),
{
    module.globals = parse_sized::<Vec<Global>>(bin)?;
    Ok(())
}

/// Decodes the body of the export section into `module`.
fn parse_exports_section(bin: &mut Source, module: &mut Module, func_types: &Vec<idx::Type>) -> (r: Result<(), Error>)
    ensures
        section_parsed(
            *old(bin),
            *final(bin),
            r,
            exports_section(old(bin)@, progress(old(module), func_types)),
            final(module),
            func_types,
        ),
{
    module.exports = parse_sized::<Vec<Export>>(bin)?;
    Ok(())
}

/// Decodes the body of the element section into `module`.
fn parse_elem_section(bin: &mut Source, module: &mut Module, func_types: &Vec<idx::Type>) -> (r: Result<(), Error>)
    ensures
        section_parsed(
            *old(bin),
            *final(bin),
            r,
            elem_section(old(bin)@, progress(old(module), func_types)),
            final(module),
            func_types,
        ),
{
    module.elem = parse_sized::<Vec<Elem>>(bin)?;
    Ok(())
}

/// Decodes the body of the data section into `module`.
fn parse_data_section(bin: &mut Source, module: &mut Module, func_types: &Vec<idx::Type>) -> (r: Result<(), Error>)
    ensures
        section_parsed(
            *old(bin),
            *final(bin),
            r,
            data_section(old(bin)@, progress(old(module), func_types)),
            final(module),
            func_types,
        ),
{
    module.data = parse_sized::<Vec<Data>>(bin)?;
    Ok(())
}

/// Decodes the body of the function section into `func_types`.
fn parse_function_section(bin: &mut Source, module: &Module, func_types: &mut Vec<idx::Type>) -> (r: Result<
    (),
    Error,
>)
    ensures
        section_parsed(
            *old(bin),
            *final(bin),
            r,
            function_section(old(bin)@, progress(module, old(func_types))),
            module,
            final(func_types),
        ),
{
    let types = parse_sized::<Vec<idx::Type>>(bin)?;
    assert(types.deep_view() =~= types@);
    *func_types = types;
    Ok(())
}

/// Decodes the body of the start section into `module`.
fn parse_start_section(bin: &mut Source, module: &mut Module, func_types: &Vec<idx::Type>) -> (r: Result<(), Error>)
    ensures
        section_parsed(
            *old(bin),
            *final(bin),
            r,
            start_section(old(bin)@, progress(old(module), func_types)),
            final(module),
            func_types,
        ),
{
    module.start = Some(parse_sized::<Start>(bin)?);
    Ok(())
}

/// Decodes the body of the code section into `module`.
fn parse_code_section(bin: &mut Source, module: &mut Module, func_types: &Vec<idx::Type>) -> (r: Result<(), Error>)
    ensures
        section_parsed(
            *old(bin),
            *final(bin),
            r,
            code_section(old(bin)@, progress(old(module), func_types)),
            final(module),
            func_types,
        ),
{
    let mut funcs = parse_sized::<UnwrappingVec<Sized<Func>>>(bin)?.unwrap();
    assert(funcs.deep_view() =~= proxy_views::<Sized<Func>>(funcs@));
    if funcs.len() != func_types.len() {
        return Err(Error::UnexpectedEndOfFile);
    }
    assign_types(&mut funcs, func_types);
    module.funcs = funcs;
    Ok(())
}

/// Decodes the body of the section with the given id into `module` and
/// `func_types`.
fn parse_section(bin: &mut Source, id: u8, module: &mut Module, func_types: &mut Vec<idx::Type>) -> (r: Result<
    (),
    Error,
>)
    ensures
        section_parsed(
            *old(bin),
            *final(bin),
            r,
            section_grammar(id, old(bin)@, progress(old(module), old(func_types))),
            final(module),
            final(func_types),
        ),
{
    proof {
        reveal(section_grammar);
    }
    match id {
        0x00 => parse_custom_section(bin, module, func_types),
        0x01 => parse_types_section(bin, module, func_types),
        0x02 => parse_imports_section(bin, module, func_types),
        0x03 => parse_function_section(bin, module, func_types),
        0x04 => parse_tables_section(bin, module, func_types),
        0x05 => parse_mems_section(bin, module, func_types),
        0x06 => parse_globals_section(bin, module, func_types),
        0x07 => parse_exports_section(bin, module, func_types),
        0x08 => parse_start_section(bin, module, func_types),
        0x09 => parse_elem_section(bin, module, func_types),
        0x0A => parse_code_section(bin, module, func_types),
        0x0B => parse_data_section(bin, module, func_types),
        _ => Err(Error::InvalidSectionId { id: Byte(id) }),
    }
}

/// Decodes the sections of a module, up to the end of the bytes.
fn parse_sections(bin: &mut Source) -> (r: Result<Module, Error>)
    ensures
        final(bin).beyond() == old(bin).beyond(),
        match sections_grammar(old(bin)@, nothing(), 0) {
            Err(e) => r == Err::<Module, Error>(e),
            Ok(module) => r is Ok && r->Ok_0.deep_view() == module && final(bin)@.len() == 0,
        },
{
    let mut func_types: Vec<idx::Type> = Vec::new();
    let mut result = Module::default();
    let mut last_id: u8 = 0;
    while bin.remaining() > 0
        invariant
            bin.beyond() == old(bin).beyond(),
            sections_grammar(old(bin)@, nothing(), 0) == sections_grammar(
                bin@,
                progress(&result, &func_types),
                last_id,
            ),
        decreases bin@.len(),
    {
        proof {
            reveal_with_fuel(sections_grammar, 2);
        }
        let Byte(id) = Byte::parse(bin)?;
        if id != 0x00 {
            if id <= last_id {
                return Err(Error::UnexpectedSectionId { id: Byte(id) });
            }
            last_id = id;
        }
        match parse_section(bin, id, &mut result, &mut func_types) {
            Err(e) => {
                return Err(e);
            },
            Ok(()) => {},
        }
    }
    proof {
        reveal_with_fuel(sections_grammar, 2);
    }
    if result.funcs.len() != func_types.len() {
        return Err(Error::UnexpectedEndOfFile);
    }
    Ok(result)
}

impl WasmBinaryGrammar for Module {
    open spec fn grammar(s: Seq<u8>) -> Parsed<ModuleView> {
        module_grammar(s)
    }
}

/// Reads four raw bytes.
fn parse_quad(bin: &mut Source) -> (r: Result<[Byte; 4], Error>)
    ensures
        final(bin).beyond() == old(bin).beyond(),
        old(bin)@.len() < 4 ==> r == Err::<[Byte; 4], Error>(Error::UnexpectedEndOfFile),
        old(bin)@.len() >= 4 ==> {
            &&& r is Ok
            &&& forall|k: int| 0 <= k < 4 ==> (#[trigger] r->Ok_0[k]).0 == old(bin)@[k]
            &&& final(bin)@ == old(bin)@.skip(4)
        },
{
    proof {
        lemma_repeat_bytes(bin@, 4);
    }
    let quad = <[Byte; 4]>::parse(bin)?;
    assert forall|k: int| 0 <= k < 4 implies (#[trigger] quad[k]).0 == old(bin)@[k] by {
        assert(quad.deep_view()[k] == quad[k].0);
        assert(old(bin)@.take(4)[k] == old(bin)@[k]);
    }
    Ok(quad)
}

impl WasmBinaryParse for Module {
    fn parse(bin: &mut Source) -> (r: Result<Self, Error>) {
        let ghost s = bin@;
        let magic = parse_quad(bin)?;
        if magic[0].0 != 0x00 || magic[1].0 != 0x61 || magic[2].0 != 0x73 || magic[3].0 != 0x6D {
            assert(s.take(4)[0] == s[0] && s.take(4)[1] == s[1] && s.take(4)[2] == s[2] && s.take(4)[3] == s[3]);
            return Err(Error::InvalidPreambleMagic);
        }
        assert(s.take(4) =~= self::magic());
        let ghost t = s.skip(4);
        let version = parse_quad(bin)?;
        if version[0].0 != 0x01 || version[1].0 != 0x00 || version[2].0 != 0x00 || version[3].0 != 0x00 {
            assert(t.take(4)[0] == t[0] && t.take(4)[1] == t[1] && t.take(4)[2] == t[2] && t.take(4)[3] == t[3]);
            return Err(Error::InvalidPreambleVersion);
        }
        assert(t.take(4) =~= self::version());
        let module = parse_sections(bin)?;
        assert(bin@ =~= s.skip(s.len() as int));
        Ok(module)
    }
}

/// Decodes a module from all of `bytes`.
pub fn decode(bytes: Vec<u8>) -> (r: Result<Module, Error>)
    ensures
        match module_grammar(bytes@) {
            Ok((module, _)) => r is Ok && r->Ok_0.deep_view() == module,
            Err(e) => r == Err::<Module, Error>(e),
        },
{
    let mut bin = Source::new(bytes);
    Module::parse(&mut bin)
}

} // verus!
