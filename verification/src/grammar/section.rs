//! The sections of a module.
//!
//! A section is stored as its id, one byte, the size of its content, and its
//! content.

use vstd::prelude::*;
use crate::binary::error::Error;
use crate::binary::primitive::byte::{byte_grammar, Byte};
use crate::binary::primitive::sized::{sized_grammar, Sized};
use crate::binary::primitive::traits::{Parsed, WasmBinaryGrammar, WasmBinaryParse, WasmBinaryParseProxy};
use crate::grammar::idx::{FuncIdx, GlobalIdx, MemIdx, TableIdx, TypeIdx};
use crate::grammar::instr::{Expression, InstructionView};
use crate::grammar::primitive::list::List;
use crate::grammar::ty::{FuncType, FuncTypeView, GlobalType, MemType, TableType, ValType};
use crate::source::Source;

verus! {

broadcast use vstd::seq_lib::lemma_seq_skip_of_skip;

/// A custom section: a name, and bytes that mean something to whoever knows
/// the name.
#[derive(Debug, PartialEq)]
pub struct CustomSection {
    pub name: String,
    pub payload: List<Byte>,
}

/// A custom section as a mathematical value.
pub struct CustomSectionView {
    pub name: Seq<char>,
    pub payload: Seq<u8>,
}

impl DeepView for CustomSection {
    type V = CustomSectionView;

    open spec fn deep_view(&self) -> CustomSectionView {
        CustomSectionView { name: self.name.deep_view(), payload: self.payload.deep_view() }
    }
}

/// The grammar of a custom section: its name, and then all the bytes that are
/// left.
pub open spec fn custom_section_grammar(s: Seq<u8>) -> Parsed<CustomSectionView> {
    match String::grammar(s) {
        Err(e) => Err(e),
        Ok((name, a)) => match List::<Byte>::grammar(s.skip(a as int)) {
            Err(e) => Err(e),
            Ok((payload, b)) => Ok((CustomSectionView { name, payload }, a + b)),
        },
    }
}

impl WasmBinaryGrammar for CustomSection {
    open spec fn grammar(s: Seq<u8>) -> Parsed<CustomSectionView> {
        custom_section_grammar(s)
    }
}

impl WasmBinaryParse for CustomSection {
    fn parse(bin: &mut Source) -> (r: Result<Self, Error>) {
        let name = String::parse(bin)?;
        let payload = List::<Byte>::parse(bin)?;
        Ok(CustomSection { name, payload })
    }
}

/// The type section: the function types of the module.
#[derive(Debug, PartialEq)]
pub struct TypeSection {
    pub types: Vec<FuncType>,
}

/// A type section as a mathematical value.
pub struct TypeSectionView {
    pub types: Seq<FuncTypeView>,
}

impl DeepView for TypeSection {
    type V = TypeSectionView;

    open spec fn deep_view(&self) -> TypeSectionView {
        TypeSectionView { types: self.types.deep_view() }
    }
}

/// The grammar of the type section: a vector of function types.
pub open spec fn type_section_grammar(s: Seq<u8>) -> Parsed<TypeSectionView> {
    match Vec::<FuncType>::grammar(s) {
        Err(e) => Err(e),
        Ok((types, a)) => Ok((TypeSectionView { types }, a)),
    }
}

impl WasmBinaryGrammar for TypeSection {
    open spec fn grammar(s: Seq<u8>) -> Parsed<TypeSectionView> {
        type_section_grammar(s)
    }
}

impl WasmBinaryParse for TypeSection {
    fn parse(bin: &mut Source) -> (r: Result<Self, Error>) {
        let types = Vec::<FuncType>::parse(bin)?;
        Ok(TypeSection { types })
    }
}

/// The import section: the imports of the module.
#[derive(Debug, PartialEq)]
pub struct ImportSection {
    pub imports: Vec<Import>,
}

/// An import section as a mathematical value.
pub struct ImportSectionView {
    pub imports: Seq<ImportView>,
}

impl DeepView for ImportSection {
    type V = ImportSectionView;

    open spec fn deep_view(&self) -> ImportSectionView {
        ImportSectionView { imports: self.imports.deep_view() }
    }
}

/// The grammar of the import section: a vector of imports.
pub open spec fn import_section_grammar(s: Seq<u8>) -> Parsed<ImportSectionView> {
    match Vec::<Import>::grammar(s) {
        Err(e) => Err(e),
        Ok((imports, a)) => Ok((ImportSectionView { imports }, a)),
    }
}

impl WasmBinaryGrammar for ImportSection {
    open spec fn grammar(s: Seq<u8>) -> Parsed<ImportSectionView> {
        import_section_grammar(s)
    }
}

impl WasmBinaryParse for ImportSection {
    fn parse(bin: &mut Source) -> (r: Result<Self, Error>) {
        let imports = Vec::<Import>::parse(bin)?;
        Ok(ImportSection { imports })
    }
}

/// Something that the module takes from another module.
#[derive(Debug, PartialEq)]
pub struct Import {
    pub module: String,
    pub name: String,
    pub desc: ImportDesc,
}

/// An import as a mathematical value.
pub struct ImportView {
    pub module: Seq<char>,
    pub name: Seq<char>,
    pub desc: ImportDesc,
}

impl DeepView for Import {
    type V = ImportView;

    open spec fn deep_view(&self) -> ImportView {
        ImportView { module: self.module.deep_view(), name: self.name.deep_view(), desc: self.desc.deep_view() }
    }
}

/// The grammar of an import: two names, and what is imported.
pub open spec fn import_grammar(s: Seq<u8>) -> Parsed<ImportView> {
    match String::grammar(s) {
        Err(e) => Err(e),
        Ok((module, a)) => match String::grammar(s.skip(a as int)) {
            Err(e) => Err(e),
            Ok((name, b)) => match ImportDesc::grammar(s.skip(a as int).skip(b as int)) {
                Err(e) => Err(e),
                Ok((desc, c)) => Ok((ImportView { module, name, desc }, a + b + c)),
            },
        },
    }
}

impl WasmBinaryGrammar for Import {
    open spec fn grammar(s: Seq<u8>) -> Parsed<ImportView> {
        import_grammar(s)
    }
}

impl WasmBinaryParse for Import {
    fn parse(bin: &mut Source) -> (r: Result<Self, Error>) {
        let module = String::parse(bin)?;
        let name = String::parse(bin)?;
        let desc = ImportDesc::parse(bin)?;
        Ok(Import { module, name, desc })
    }
}

/// What is imported: a function of a given type, or a table, a memory or a
/// global of a given type.
#[derive(Debug, Clone, Copy, PartialEq, Eq, Structural)]
pub enum ImportDesc {
    Func(TypeIdx),
    Table(TableType),
    Mem(MemType),
    Global(GlobalType),
}

impl DeepView for ImportDesc {
    type V = ImportDesc;

    open spec fn deep_view(&self) -> ImportDesc {
        *self
    }
}

/// The grammar of what is imported: a byte that tells the kind, then the type.
pub open spec fn import_desc_grammar(s: Seq<u8>) -> Parsed<ImportDesc> {
    match byte_grammar(s) {
        Err(e) => Err(e),
        Ok((id, n)) => if id == 0x00 {
            match TypeIdx::grammar(s.skip(n as int)) {
                Err(e) => Err(e),
                Ok((ty, a)) => Ok((ImportDesc::Func(ty), n + a)),
            }
        } else if id == 0x01 {
            match TableType::grammar(s.skip(n as int)) {
                Err(e) => Err(e),
                Ok((ty, a)) => Ok((ImportDesc::Table(ty), n + a)),
            }
        } else if id == 0x02 {
            match MemType::grammar(s.skip(n as int)) {
                Err(e) => Err(e),
                Ok((ty, a)) => Ok((ImportDesc::Mem(ty), n + a)),
            }
        } else if id == 0x03 {
            match GlobalType::grammar(s.skip(n as int)) {
                Err(e) => Err(e),
                Ok((ty, a)) => Ok((ImportDesc::Global(ty), n + a)),
            }
        } else {
            Err(Error::InvalidVariantId { id, ty: "ImportDesc" })
        },
    }
}

impl WasmBinaryGrammar for ImportDesc {
    open spec fn grammar(s: Seq<u8>) -> Parsed<ImportDesc> {
        import_desc_grammar(s)
    }
}

impl WasmBinaryParse for ImportDesc {
    fn parse(bin: &mut Source) -> (r: Result<Self, Error>) {
        let Byte(id) = Byte::parse(bin)?;
        match id {
            0x00 => {
                let ty = TypeIdx::parse(bin)?;
                Ok(ImportDesc::Func(ty))
            },
            0x01 => {
                let ty = TableType::parse(bin)?;
                Ok(ImportDesc::Table(ty))
            },
            0x02 => {
                let ty = MemType::parse(bin)?;
                Ok(ImportDesc::Mem(ty))
            },
            0x03 => {
                let ty = GlobalType::parse(bin)?;
                Ok(ImportDesc::Global(ty))
            },
            id => Err(Error::InvalidVariantId { id, ty: "ImportDesc" }),
        }
    }
}

/// The function section: the types of the functions of the module.
#[derive(Debug, PartialEq)]
pub struct FuncSection {
    pub funcs: Vec<TypeIdx>,
}

/// A function section as a mathematical value.
pub struct FuncSectionView {
    pub funcs: Seq<TypeIdx>,
}

impl DeepView for FuncSection {
    type V = FuncSectionView;

    open spec fn deep_view(&self) -> FuncSectionView {
        FuncSectionView { funcs: self.funcs.deep_view() }
    }
}

/// The grammar of the function section: the type of each function, in a vector.
pub open spec fn func_section_grammar(s: Seq<u8>) -> Parsed<FuncSectionView> {
    match Vec::<TypeIdx>::grammar(s) {
        Err(e) => Err(e),
        Ok((funcs, a)) => Ok((FuncSectionView { funcs }, a)),
    }
}

impl WasmBinaryGrammar for FuncSection {
    open spec fn grammar(s: Seq<u8>) -> Parsed<FuncSectionView> {
        func_section_grammar(s)
    }
}

impl WasmBinaryParse for FuncSection {
    fn parse(bin: &mut Source) -> (r: Result<Self, Error>) {
        let funcs = Vec::<TypeIdx>::parse(bin)?;
        Ok(FuncSection { funcs })
    }
}

/// The table section: the tables of the module.
#[derive(Debug, PartialEq)]
pub struct TableSection {
    pub tables: Vec<Table>,
}

/// A table section as a mathematical value.
pub struct TableSectionView {
    pub tables: Seq<Table>,
}

impl DeepView for TableSection {
    type V = TableSectionView;

    open spec fn deep_view(&self) -> TableSectionView {
        TableSectionView { tables: self.tables.deep_view() }
    }
}

/// The grammar of the table section: a vector of tables.
pub open spec fn table_section_grammar(s: Seq<u8>) -> Parsed<TableSectionView> {
    match Vec::<Table>::grammar(s) {
        Err(e) => Err(e),
        Ok((tables, a)) => Ok((TableSectionView { tables }, a)),
    }
}

impl WasmBinaryGrammar for TableSection {
    open spec fn grammar(s: Seq<u8>) -> Parsed<TableSectionView> {
        table_section_grammar(s)
    }
}

impl WasmBinaryParse for TableSection {
    fn parse(bin: &mut Source) -> (r: Result<Self, Error>) {
        let tables = Vec::<Table>::parse(bin)?;
        Ok(TableSection { tables })
    }
}

/// A table.
#[derive(Debug, Clone, Copy, PartialEq, Eq, Structural)]
pub struct Table {
    pub ty: TableType,
}

impl DeepView for Table {
    type V = Table;

    open spec fn deep_view(&self) -> Table {
        *self
    }
}

/// The grammar of a table: its type.
pub open spec fn table_grammar(s: Seq<u8>) -> Parsed<Table> {
    match TableType::grammar(s) {
        Err(e) => Err(e),
        Ok((ty, a)) => Ok((Table { ty }, a)),
    }
}

impl WasmBinaryGrammar for Table {
    open spec fn grammar(s: Seq<u8>) -> Parsed<Table> {
        table_grammar(s)
    }
}

impl WasmBinaryParse for Table {
    fn parse(bin: &mut Source) -> (r: Result<Self, Error>) {
        let ty = TableType::parse(bin)?;
        Ok(Table { ty })
    }
}

/// The memory section: the memories of the module.
#[derive(Debug, PartialEq)]
pub struct MemorySection {
    pub mems: Vec<Memory>,
}

/// A memory section as a mathematical value.
pub struct MemorySectionView {
    pub mems: Seq<Memory>,
}

impl DeepView for MemorySection {
    type V = MemorySectionView;

    open spec fn deep_view(&self) -> MemorySectionView {
        MemorySectionView { mems: self.mems.deep_view() }
    }
}

/// The grammar of the memory section: a vector of memories.
pub open spec fn memory_section_grammar(s: Seq<u8>) -> Parsed<MemorySectionView> {
    match Vec::<Memory>::grammar(s) {
        Err(e) => Err(e),
        Ok((mems, a)) => Ok((MemorySectionView { mems }, a)),
    }
}

impl WasmBinaryGrammar for MemorySection {
    open spec fn grammar(s: Seq<u8>) -> Parsed<MemorySectionView> {
        memory_section_grammar(s)
    }
}

impl WasmBinaryParse for MemorySection {
    fn parse(bin: &mut Source) -> (r: Result<Self, Error>) {
        let mems = Vec::<Memory>::parse(bin)?;
        Ok(MemorySection { mems })
    }
}

/// A memory.
#[derive(Debug, Clone, Copy, PartialEq, Eq, Structural)]
pub struct Memory {
    pub ty: MemType,
}

impl DeepView for Memory {
    type V = Memory;

    open spec fn deep_view(&self) -> Memory {
        *self
    }
}

/// The grammar of a memory: its type.
pub open spec fn memory_grammar(s: Seq<u8>) -> Parsed<Memory> {
    match MemType::grammar(s) {
        Err(e) => Err(e),
        Ok((ty, a)) => Ok((Memory { ty }, a)),
    }
}

impl WasmBinaryGrammar for Memory {
    open spec fn grammar(s: Seq<u8>) -> Parsed<Memory> {
        memory_grammar(s)
    }
}

impl WasmBinaryParse for Memory {
    fn parse(bin: &mut Source) -> (r: Result<Self, Error>) {
        let ty = MemType::parse(bin)?;
        Ok(Memory { ty })
    }
}

/// The global section: the globals of the module.
#[derive(Debug, PartialEq)]
pub struct GlobalSection {
    pub globals: Vec<Global>,
}

/// A global section as a mathematical value.
pub struct GlobalSectionView {
    pub globals: Seq<GlobalView>,
}

impl DeepView for GlobalSection {
    type V = GlobalSectionView;

    open spec fn deep_view(&self) -> GlobalSectionView {
        GlobalSectionView { globals: self.globals.deep_view() }
    }
}

/// The grammar of the global section: a vector of globals.
pub open spec fn global_section_grammar(s: Seq<u8>) -> Parsed<GlobalSectionView> {
    match Vec::<Global>::grammar(s) {
        Err(e) => Err(e),
        Ok((globals, a)) => Ok((GlobalSectionView { globals }, a)),
    }
}

impl WasmBinaryGrammar for GlobalSection {
    open spec fn grammar(s: Seq<u8>) -> Parsed<GlobalSectionView> {
        global_section_grammar(s)
    }
}

impl WasmBinaryParse for GlobalSection {
    fn parse(bin: &mut Source) -> (r: Result<Self, Error>) {
        let globals = Vec::<Global>::parse(bin)?;
        Ok(GlobalSection { globals })
    }
}

/// A global: its type, and the expression that gives its first value.
#[derive(Debug, PartialEq)]
pub struct Global {
    pub ty: GlobalType,
    pub init: Expression,
}

/// A global as a mathematical value.
pub struct GlobalView {
    pub ty: GlobalType,
    pub init: Seq<InstructionView>,
}

impl DeepView for Global {
    type V = GlobalView;

    open spec fn deep_view(&self) -> GlobalView {
        GlobalView { ty: self.ty.deep_view(), init: self.init.deep_view() }
    }
}

/// The grammar of a global: its type, then its initializer.
pub open spec fn global_grammar(s: Seq<u8>) -> Parsed<GlobalView> {
    match GlobalType::grammar(s) {
        Err(e) => Err(e),
        Ok((ty, a)) => match Expression::grammar(s.skip(a as int)) {
            Err(e) => Err(e),
            Ok((init, b)) => Ok((GlobalView { ty, init }, a + b)),
        },
    }
}

impl WasmBinaryGrammar for Global {
    open spec fn grammar(s: Seq<u8>) -> Parsed<GlobalView> {
        global_grammar(s)
    }
}

impl WasmBinaryParse for Global {
    fn parse(bin: &mut Source) -> (r: Result<Self, Error>) {
        let ty = GlobalType::parse(bin)?;
        let init = Expression::parse(bin)?;
        Ok(Global { ty, init })
    }
}

/// The export section: the exports of the module.
#[derive(Debug, PartialEq)]
pub struct ExportSection {
    pub exports: Vec<Export>,
}

/// An export section as a mathematical value.
pub struct ExportSectionView {
    pub exports: Seq<ExportView>,
}

impl DeepView for ExportSection {
    type V = ExportSectionView;

    open spec fn deep_view(&self) -> ExportSectionView {
        ExportSectionView { exports: self.exports.deep_view() }
    }
}

/// The grammar of the export section: a vector of exports.
pub open spec fn export_section_grammar(s: Seq<u8>) -> Parsed<ExportSectionView> {
    match Vec::<Export>::grammar(s) {
        Err(e) => Err(e),
        Ok((exports, a)) => Ok((ExportSectionView { exports }, a)),
    }
}

impl WasmBinaryGrammar for ExportSection {
    open spec fn grammar(s: Seq<u8>) -> Parsed<ExportSectionView> {
        export_section_grammar(s)
    }
}

impl WasmBinaryParse for ExportSection {
    fn parse(bin: &mut Source) -> (r: Result<Self, Error>) {
        let exports = Vec::<Export>::parse(bin)?;
        Ok(ExportSection { exports })
    }
}

/// Something that the module offers to other modules.
#[derive(Debug, PartialEq)]
pub struct Export {
    pub name: String,
    pub desc: ExportDesc,
}

/// An export as a mathematical value.
pub struct ExportView {
    pub name: Seq<char>,
    pub desc: ExportDesc,
}

impl DeepView for Export {
    type V = ExportView;

    open spec fn deep_view(&self) -> ExportView {
        ExportView { name: self.name.deep_view(), desc: self.desc.deep_view() }
    }
}

/// The grammar of an export: a name, and what is exported.
pub open spec fn export_grammar(s: Seq<u8>) -> Parsed<ExportView> {
    match String::grammar(s) {
        Err(e) => Err(e),
        Ok((name, a)) => match ExportDesc::grammar(s.skip(a as int)) {
            Err(e) => Err(e),
            Ok((desc, b)) => Ok((ExportView { name, desc }, a + b)),
        },
    }
}

impl WasmBinaryGrammar for Export {
    open spec fn grammar(s: Seq<u8>) -> Parsed<ExportView> {
        export_grammar(s)
    }
}

impl WasmBinaryParse for Export {
    fn parse(bin: &mut Source) -> (r: Result<Self, Error>) {
        let name = String::parse(bin)?;
        let desc = ExportDesc::parse(bin)?;
        Ok(Export { name, desc })
    }
}

/// What is exported: one of the module's functions, tables, memories or
/// globals.
#[derive(Debug, Clone, Copy, PartialEq, Eq, Structural)]
pub enum ExportDesc {
    Func(TypeIdx),
    Table(TableIdx),
    Mem(MemIdx),
    Global(GlobalIdx),
}

impl DeepView for ExportDesc {
    type V = ExportDesc;

    open spec fn deep_view(&self) -> ExportDesc {
        *self
    }
}

/// The grammar of what is exported: a byte that tells the kind, then the
/// index.
pub open spec fn export_desc_grammar(s: Seq<u8>) -> Parsed<ExportDesc> {
    match byte_grammar(s) {
        Err(e) => Err(e),
        Ok((id, n)) => if id == 0x00 {
            match TypeIdx::grammar(s.skip(n as int)) {
                Err(e) => Err(e),
                Ok((index, a)) => Ok((ExportDesc::Func(index), n + a)),
            }
        } else if id == 0x01 {
            match TableIdx::grammar(s.skip(n as int)) {
                Err(e) => Err(e),
                Ok((index, a)) => Ok((ExportDesc::Table(index), n + a)),
            }
        } else if id == 0x02 {
            match MemIdx::grammar(s.skip(n as int)) {
                Err(e) => Err(e),
                Ok((index, a)) => Ok((ExportDesc::Mem(index), n + a)),
            }
        } else if id == 0x03 {
            match GlobalIdx::grammar(s.skip(n as int)) {
                Err(e) => Err(e),
                Ok((index, a)) => Ok((ExportDesc::Global(index), n + a)),
            }
        } else {
            Err(Error::InvalidVariantId { id, ty: "ExportDesc" })
        },
    }
}

impl WasmBinaryGrammar for ExportDesc {
    open spec fn grammar(s: Seq<u8>) -> Parsed<ExportDesc> {
        export_desc_grammar(s)
    }
}

impl WasmBinaryParse for ExportDesc {
    fn parse(bin: &mut Source) -> (r: Result<Self, Error>) {
        let Byte(id) = Byte::parse(bin)?;
        match id {
            0x00 => {
                let index = TypeIdx::parse(bin)?;
                Ok(ExportDesc::Func(index))
            },
            0x01 => {
                let index = TableIdx::parse(bin)?;
                Ok(ExportDesc::Table(index))
            },
            0x02 => {
                let index = MemIdx::parse(bin)?;
                Ok(ExportDesc::Mem(index))
            },
            0x03 => {
                let index = GlobalIdx::parse(bin)?;
                Ok(ExportDesc::Global(index))
            },
            id => Err(Error::InvalidVariantId { id, ty: "ExportDesc" }),
        }
    }
}

/// The start section: the function that runs when the module is instantiated.
#[derive(Debug, Clone, Copy, PartialEq, Eq, Structural)]
pub struct StartSection {
    pub start: FuncIdx,
}

impl DeepView for StartSection {
    type V = StartSection;

    open spec fn deep_view(&self) -> StartSection {
        *self
    }
}

/// The grammar of the start section: the index of the start function.
pub open spec fn start_section_grammar(s: Seq<u8>) -> Parsed<StartSection> {
    match FuncIdx::grammar(s) {
        Err(e) => Err(e),
        Ok((start, a)) => Ok((StartSection { start }, a)),
    }
}

impl WasmBinaryGrammar for StartSection {
    open spec fn grammar(s: Seq<u8>) -> Parsed<StartSection> {
        start_section_grammar(s)
    }
}

impl WasmBinaryParse for StartSection {
    fn parse(bin: &mut Source) -> (r: Result<Self, Error>) {
        let start = FuncIdx::parse(bin)?;
        Ok(StartSection { start })
    }
}

/// The element section: the table segments of the module.
#[derive(Debug, PartialEq)]
pub struct ElementSection {
    pub elem: Vec<Element>,
}

/// An element section as a mathematical value.
pub struct ElementSectionView {
    pub elem: Seq<ElementView>,
}

impl DeepView for ElementSection {
    type V = ElementSectionView;

    open spec fn deep_view(&self) -> ElementSectionView {
        ElementSectionView { elem: self.elem.deep_view() }
    }
}

/// The grammar of the element section: a vector of table segments.
pub open spec fn element_section_grammar(s: Seq<u8>) -> Parsed<ElementSectionView> {
    match Vec::<Element>::grammar(s) {
        Err(e) => Err(e),
        Ok((elem, a)) => Ok((ElementSectionView { elem }, a)),
    }
}

impl WasmBinaryGrammar for ElementSection {
    open spec fn grammar(s: Seq<u8>) -> Parsed<ElementSectionView> {
        element_section_grammar(s)
    }
}

impl WasmBinaryParse for ElementSection {
    fn parse(bin: &mut Source) -> (r: Result<Self, Error>) {
        let elem = Vec::<Element>::parse(bin)?;
        Ok(ElementSection { elem })
    }
}

/// A segment of a table: the functions `init`, placed from `offset` on.
#[derive(Debug, PartialEq)]
pub struct Element {
    pub table: TableIdx,
    pub offset: Expression,
    pub init: Vec<FuncIdx>,
}

/// A table segment as a mathematical value.
pub struct ElementView {
    pub table: TableIdx,
    pub offset: Seq<InstructionView>,
    pub init: Seq<FuncIdx>,
}

impl DeepView for Element {
    type V = ElementView;

    open spec fn deep_view(&self) -> ElementView {
        ElementView { table: self.table.deep_view(), offset: self.offset.deep_view(), init: self.init.deep_view() }
    }
}

/// The grammar of a table segment: the table, the offset, the functions.
pub open spec fn element_grammar(s: Seq<u8>) -> Parsed<ElementView> {
    match TableIdx::grammar(s) {
        Err(e) => Err(e),
        Ok((table, a)) => match Expression::grammar(s.skip(a as int)) {
            Err(e) => Err(e),
            Ok((offset, b)) => match Vec::<FuncIdx>::grammar(s.skip(a as int).skip(b as int)) {
                Err(e) => Err(e),
                Ok((init, c)) => Ok((ElementView { table, offset, init }, a + b + c)),
            },
        },
    }
}

impl WasmBinaryGrammar for Element {
    open spec fn grammar(s: Seq<u8>) -> Parsed<ElementView> {
        element_grammar(s)
    }
}

impl WasmBinaryParse for Element {
    fn parse(bin: &mut Source) -> (r: Result<Self, Error>) {
        let table = TableIdx::parse(bin)?;
        let offset = Expression::parse(bin)?;
        let init = Vec::<FuncIdx>::parse(bin)?;
        Ok(Element { table, offset, init })
    }
}

/// The code section: the code of the functions of the module.
#[derive(Debug, PartialEq)]
pub struct CodeSection {
    pub funcs: Vec<Function>,
}

/// A code section as a mathematical value.
pub struct CodeSectionView {
    pub funcs: Seq<FunctionView>,
}

impl DeepView for CodeSection {
    type V = CodeSectionView;

    open spec fn deep_view(&self) -> CodeSectionView {
        CodeSectionView { funcs: self.funcs.deep_view() }
    }
}

/// The grammar of the code section: the code of each function, in a vector.
pub open spec fn code_section_grammar(s: Seq<u8>) -> Parsed<CodeSectionView> {
    match Vec::<Function>::grammar(s) {
        Err(e) => Err(e),
        Ok((funcs, a)) => Ok((CodeSectionView { funcs }, a)),
    }
}

impl WasmBinaryGrammar for CodeSection {
    open spec fn grammar(s: Seq<u8>) -> Parsed<CodeSectionView> {
        code_section_grammar(s)
    }
}

impl WasmBinaryParse for CodeSection {
    fn parse(bin: &mut Source) -> (r: Result<Self, Error>) {
        let funcs = Vec::<Function>::parse(bin)?;
        Ok(CodeSection { funcs })
    }
}

/// A run of locals of one type: how many, and the type.
#[derive(Debug, Clone, Copy, PartialEq, Eq, Structural)]
pub struct Locals {
    pub n: u32,
    pub ty: ValType,
}

impl DeepView for Locals {
    type V = Locals;

    open spec fn deep_view(&self) -> Locals {
        *self
    }
}

/// The grammar of a run of locals: its length, then its type.
pub open spec fn locals_grammar(s: Seq<u8>) -> Parsed<Locals> {
    match u32::grammar(s) {
        Err(e) => Err(e),
        Ok((n, a)) => match ValType::grammar(s.skip(a as int)) {
            Err(e) => Err(e),
            Ok((ty, b)) => Ok((Locals { n, ty }, a + b)),
        },
    }
}

impl WasmBinaryGrammar for Locals {
    open spec fn grammar(s: Seq<u8>) -> Parsed<Locals> {
        locals_grammar(s)
    }
}

impl WasmBinaryParse for Locals {
    fn parse(bin: &mut Source) -> (r: Result<Self, Error>) {
        let n = u32::parse(bin)?;
        let ty = ValType::parse(bin)?;
        Ok(Locals { n, ty })
    }
}

/// The data section: the memory segments of the module.
#[derive(Debug, PartialEq)]
pub struct DataSection {
    pub data: Vec<Data>,
}

/// A data section as a mathematical value.
pub struct DataSectionView {
    pub data: Seq<DataView>,
}

impl DeepView for DataSection {
    type V = DataSectionView;

    open spec fn deep_view(&self) -> DataSectionView {
        DataSectionView { data: self.data.deep_view() }
    }
}

/// The grammar of the data section: a vector of memory segments.
pub open spec fn data_section_grammar(s: Seq<u8>) -> Parsed<DataSectionView> {
    match Vec::<Data>::grammar(s) {
        Err(e) => Err(e),
        Ok((data, a)) => Ok((DataSectionView { data }, a)),
    }
}

impl WasmBinaryGrammar for DataSection {
    open spec fn grammar(s: Seq<u8>) -> Parsed<DataSectionView> {
        data_section_grammar(s)
    }
}

impl WasmBinaryParse for DataSection {
    fn parse(bin: &mut Source) -> (r: Result<Self, Error>) {
        let data = Vec::<Data>::parse(bin)?;
        Ok(DataSection { data })
    }
}

/// A segment of a memory: the bytes `init`, placed from `offset` on.
#[derive(Debug, PartialEq)]
pub struct Data {
    pub data: MemIdx,
    pub offset: Expression,
    pub init: Vec<Byte>,
}

/// A memory segment as a mathematical value.
pub struct DataView {
    pub data: MemIdx,
    pub offset: Seq<InstructionView>,
    pub init: Seq<u8>,
}

impl DeepView for Data {
    type V = DataView;

    open spec fn deep_view(&self) -> DataView {
        DataView { data: self.data.deep_view(), offset: self.offset.deep_view(), init: self.init.deep_view() }
    }
}

/// The grammar of a memory segment: the memory, the offset, the bytes.
pub open spec fn data_grammar(s: Seq<u8>) -> Parsed<DataView> {
    match MemIdx::grammar(s) {
        Err(e) => Err(e),
        Ok((data, a)) => match Expression::grammar(s.skip(a as int)) {
            Err(e) => Err(e),
            Ok((offset, b)) => match Vec::<Byte>::grammar(s.skip(a as int).skip(b as int)) {
                Err(e) => Err(e),
                Ok((init, c)) => Ok((DataView { data, offset, init }, a + b + c)),
            },
        },
    }
}

impl WasmBinaryGrammar for Data {
    open spec fn grammar(s: Seq<u8>) -> Parsed<DataView> {
        data_grammar(s)
    }
}

impl WasmBinaryParse for Data {
    fn parse(bin: &mut Source) -> (r: Result<Self, Error>) {
        let data = MemIdx::parse(bin)?;
        let offset = Expression::parse(bin)?;
        let init = Vec::<Byte>::parse(bin)?;
        Ok(Data { data, offset, init })
    }
}

/// The code of a function: the types of its locals, as runs, and its body.
/// It is stored behind its size.
#[derive(Debug, PartialEq)]
pub struct Function {
    pub locals: Vec<Locals>,
    pub code: Expression,
}

/// The code of a function as a mathematical value.
pub struct FunctionView {
    pub locals: Seq<Locals>,
    pub code: Seq<InstructionView>,
}

impl DeepView for Function {
    type V = FunctionView;

    open spec fn deep_view(&self) -> FunctionView {
        FunctionView { locals: self.locals.deep_view(), code: self.code.deep_view() }
    }
}

/// The grammar of the code of a function: its size, and in as many bytes the
/// runs of locals and the body.
pub open spec fn function_grammar(s: Seq<u8>) -> Parsed<FunctionView> {
    match sized_grammar::<(Vec<Locals>, Expression)>(s) {
        Err(e) => Err(e),
        Ok(((locals, code), n)) => Ok((FunctionView { locals, code }, n)),
    }
}

impl WasmBinaryGrammar for Function {
    open spec fn grammar(s: Seq<u8>) -> Parsed<FunctionView> {
        function_grammar(s)
    }
}

impl WasmBinaryParse for Function {
    fn parse(bin: &mut Source) -> (r: Result<Self, Error>) {
        let (locals, code) = Sized::<(Vec<Locals>, Expression)>::parse(bin)?.unwrap();
        Ok(Function { locals, code })
    }
}

/// A section of a module.
#[derive(Debug, PartialEq)]
pub enum Section {
    Custom(CustomSection),
    Type(TypeSection),
    Import(ImportSection),
    Function(FuncSection),
    Table(TableSection),
    Memory(MemorySection),
    Global(GlobalSection),
    Export(ExportSection),
    Start(StartSection),
    Element(ElementSection),
    Code(CodeSection),
    Data(DataSection),
}

/// A section as a mathematical value.
pub enum SectionView {
    Custom(CustomSectionView),
    Type(TypeSectionView),
    Import(ImportSectionView),
    Function(FuncSectionView),
    Table(TableSectionView),
    Memory(MemorySectionView),
    Global(GlobalSectionView),
    Export(ExportSectionView),
    Start(StartSection),
    Element(ElementSectionView),
    Code(CodeSectionView),
    Data(DataSectionView),
}

impl DeepView for Section {
    type V = SectionView;

    open spec fn deep_view(&self) -> SectionView {
        match self {
            Section::Custom(section) => SectionView::Custom(section.deep_view()),
            Section::Type(section) => SectionView::Type(section.deep_view()),
            Section::Import(section) => SectionView::Import(section.deep_view()),
            Section::Function(section) => SectionView::Function(section.deep_view()),
            Section::Table(section) => SectionView::Table(section.deep_view()),
            Section::Memory(section) => SectionView::Memory(section.deep_view()),
            Section::Global(section) => SectionView::Global(section.deep_view()),
            Section::Export(section) => SectionView::Export(section.deep_view()),
            Section::Start(section) => SectionView::Start(section.deep_view()),
            Section::Element(section) => SectionView::Element(section.deep_view()),
            Section::Code(section) => SectionView::Code(section.deep_view()),
            Section::Data(section) => SectionView::Data(section.deep_view()),
        }
    }
}

/// The grammar of a section: its id, its size, and in as many bytes what the
/// id asks for.
#[verifier::opaque]
pub open spec fn section_grammar(s: Seq<u8>) -> Parsed<SectionView> {
    match byte_grammar(s) {
        Err(e) => Err(e),
        Ok((id, n)) => match id {
            0x00 => match sized_grammar::<CustomSection>(s.skip(n as int)) {
                Err(e) => Err(e),
                Ok((section, a)) => Ok((SectionView::Custom(section), n + a)),
            },
            0x01 => match sized_grammar::<TypeSection>(s.skip(n as int)) {
                Err(e) => Err(e),
                Ok((section, a)) => Ok((SectionView::Type(section), n + a)),
            },
            0x02 => match sized_grammar::<ImportSection>(s.skip(n as int)) {
                Err(e) => Err(e),
                Ok((section, a)) => Ok((SectionView::Import(section), n + a)),
            },
            0x03 => match sized_grammar::<FuncSection>(s.skip(n as int)) {
                Err(e) => Err(e),
                Ok((section, a)) => Ok((SectionView::Function(section), n + a)),
            },
            0x04 => match sized_grammar::<TableSection>(s.skip(n as int)) {
                Err(e) => Err(e),
                Ok((section, a)) => Ok((SectionView::Table(section), n + a)),
            },
            0x05 => match sized_grammar::<MemorySection>(s.skip(n as int)) {
                Err(e) => Err(e),
                Ok((section, a)) => Ok((SectionView::Memory(section), n + a)),
            },
            0x06 => match sized_grammar::<GlobalSection>(s.skip(n as int)) {
                Err(e) => Err(e),
                Ok((section, a)) => Ok((SectionView::Global(section), n + a)),
            },
            0x07 => match sized_grammar::<ExportSection>(s.skip(n as int)) {
                Err(e) => Err(e),
                Ok((section, a)) => Ok((SectionView::Export(section), n + a)),
            },
            0x08 => match sized_grammar::<StartSection>(s.skip(n as int)) {
                Err(e) => Err(e),
                Ok((section, a)) => Ok((SectionView::Start(section), n + a)),
            },
            0x09 => match sized_grammar::<ElementSection>(s.skip(n as int)) {
                Err(e) => Err(e),
                Ok((section, a)) => Ok((SectionView::Element(section), n + a)),
            },
            0x0A => match sized_grammar::<CodeSection>(s.skip(n as int)) {
                Err(e) => Err(e),
                Ok((section, a)) => Ok((SectionView::Code(section), n + a)),
            },
            0x0B => match sized_grammar::<DataSection>(s.skip(n as int)) {
                Err(e) => Err(e),
                Ok((section, a)) => Ok((SectionView::Data(section), n + a)),
            },
            _ => Err(Error::InvalidVariantId { id, ty: "Section" }),
        },
    }
}

impl WasmBinaryGrammar for Section {
    open spec fn grammar(s: Seq<u8>) -> Parsed<SectionView> {
        section_grammar(s)
    }
}

impl WasmBinaryParse for Section {
    fn parse(bin: &mut Source) -> (r: Result<Self, Error>) {
        proof {
            reveal(section_grammar);
        }
        let Byte(id) = Byte::parse(bin)?;
        match id {
            0x00 => Ok(Section::Custom(Sized::<CustomSection>::parse(bin)?.unwrap())),
            0x01 => Ok(Section::Type(Sized::<TypeSection>::parse(bin)?.unwrap())),
            0x02 => Ok(Section::Import(Sized::<ImportSection>::parse(bin)?.unwrap())),
            0x03 => Ok(Section::Function(Sized::<FuncSection>::parse(bin)?.unwrap())),
            0x04 => Ok(Section::Table(Sized::<TableSection>::parse(bin)?.unwrap())),
            0x05 => Ok(Section::Memory(Sized::<MemorySection>::parse(bin)?.unwrap())),
            0x06 => Ok(Section::Global(Sized::<GlobalSection>::parse(bin)?.unwrap())),
            0x07 => Ok(Section::Export(Sized::<ExportSection>::parse(bin)?.unwrap())),
            0x08 => Ok(Section::Start(Sized::<StartSection>::parse(bin)?.unwrap())),
            0x09 => Ok(Section::Element(Sized::<ElementSection>::parse(bin)?.unwrap())),
            0x0A => Ok(Section::Code(Sized::<CodeSection>::parse(bin)?.unwrap())),
            0x0B => Ok(Section::Data(Sized::<DataSection>::parse(bin)?.unwrap())),
            id => Err(Error::InvalidVariantId { id, ty: "Section" }),
        }
    }
}

} // verus!
