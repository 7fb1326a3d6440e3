use whasm::binary::WasmBinaryParse;
use whasm::grammar::idx::{FuncIdx, GlobalIdx, LabelIdx, LocalIdx, MemIdx, TableIdx, TypeIdx};
use whasm::grammar::instr::{
    deserialize_expression, deserialize_if, BlockInstr, Expression, IfInstr, InstrList, Instruction, LoadInstr, MemArg,
};
use whasm::grammar::module::Module;
use whasm::grammar::section::{
    CodeSection, CustomSection, Data, DataSection, Element, ElementSection, Export, ExportDesc, ExportSection,
    FuncSection, Function, Global, GlobalSection, Import, ImportDesc, ImportSection, Locals, Memory, MemorySection,
    Section, StartSection, Table, TableSection, TypeSection,
};
use whasm::grammar::ty::{BlockType, ElemType, FuncType, GlobalType, Limits, MemType, Mut, TableType, ValType};
use whasm::grammar::{deserialize, Byte, Error, List};
use whasm::source::Source;
use whasm::structure::instr::{F32, F64};

#[test]
fn can_deserialize_was_file() {
    let mut iter = Source::new(vec![
        0x00, 0x61, 0x73, 0x6d, 0x01, 0x00, 0x00, 0x00, 0x01, 0x85, 0x80, 0x80, 0x80, 0x00, 0x01, 0x60, 0x00, 0x01,
        0x7f, 0x03, 0x82, 0x80, 0x80, 0x80, 0x00, 0x01, 0x00, 0x04, 0x84, 0x80, 0x80, 0x80, 0x00, 0x01, 0x70, 0x00,
        0x00, 0x06, 0x81, 0x80, 0x80, 0x80, 0x00, 0x00, 0x07, 0x88, 0x80, 0x80, 0x80, 0x00, 0x01, 0x04, 0x74, 0x65,
        0x73, 0x74, 0x00, 0x00, 0x0a, 0x8a, 0x80, 0x80, 0x80, 0x00, 0x01, 0x84, 0x80, 0x80, 0x80, 0x00, 0x00, 0x41,
        0x2a, 0x0b,
    ]);
    let result: Module = deserialize(&mut iter).unwrap();
    assert_eq!(result.magic, [Byte(0x00), Byte(0x61), Byte(0x73), Byte(0x6D)]);
    assert_eq!(result.version, [Byte(1), Byte(0), Byte(0), Byte(0)]);
    assert_eq!(
        result.sections,
        List(vec![
            Section::Type(TypeSection { types: vec![FuncType::Func { params: vec![], results: vec![ValType::I32] }] }),
            Section::Function(FuncSection { funcs: vec![TypeIdx(0)] }),
            Section::Table(TableSection {
                tables: vec![Table { ty: TableType { et: ElemType::FuncRef, lim: Limits::Min(0) } }]
            }),
            Section::Global(GlobalSection { globals: vec![] }),
            Section::Export(ExportSection {
                exports: vec![Export { name: String::from("test"), desc: ExportDesc::Func(TypeIdx(0)) }]
            }),
            Section::Code(CodeSection {
                funcs: vec![Function { locals: vec![], code: Expression(vec![Instruction::ConstI32(42)]) }]
            })
        ])
    );
}

#[test]
fn module_without_sections_has_none() {
    let mut iter = Source::new(vec![0x00, 0x61, 0x73, 0x6d, 0x01, 0x00, 0x00, 0x00]);
    let Module { sections, .. } = deserialize(&mut iter).unwrap();
    assert_eq!(sections, List(vec![]));
}

#[test]
fn module_with_one_function_has_four_sections() {
    let mut iter = Source::new(vec![
        0x00, 0x61, 0x73, 0x6d, 0x01, 0x00, 0x00, 0x00, 0x01, 0x05, 0x01, 0x60, 0x00, 0x01, 0x7f, 0x03, 0x02, 0x01,
        0x00, 0x07, 0x08, 0x01, 0x04, 0x6D, 0x61, 0x69, 0x6E, 0x00, 0x00, 0x0a, 0x0a, 0x01, 0x84, 0x80, 0x80, 0x80,
        0x00, 0x00, 0x41, 0x2a, 0x0b,
    ]);
    let Module { sections, .. } = deserialize(&mut iter).unwrap();
    assert_eq!(
        sections,
        List(vec![
            Section::Type(TypeSection { types: vec![FuncType::Func { params: vec![], results: vec![ValType::I32] }] }),
            Section::Function(FuncSection { funcs: vec![TypeIdx(0)] }),
            Section::Export(ExportSection {
                exports: vec![Export { name: String::from("main"), desc: ExportDesc::Func(TypeIdx(0)) }]
            }),
            Section::Code(CodeSection {
                funcs: vec![Function { locals: vec![], code: Expression(vec![Instruction::ConstI32(42)]) }]
            })
        ])
    );
}

#[test]
fn module_is_held_to_its_preamble() {
    let parse = |bytes: Vec<u8>| deserialize::<Module>(&mut Source::new(bytes));
    assert_eq!(parse(vec![0x00, 0x61, 0x73, 0x6d, 0x02, 0x00, 0x00, 0x00]), Err(Error::UnsatisfiedMatch { expected: "version" }));
    assert_eq!(parse(vec![0x00, 0x61, 0x73, 0x6e, 0x01, 0x00, 0x00, 0x00]), Err(Error::UnsatisfiedMatch { expected: "magic" }));
    assert_eq!(parse(vec![0x00, 0x61, 0x73, 0x6d, 0x01]), Err(Error::UnexpectedEndOfStream));
}

#[test]
fn sections_are_listed_as_they_are_stored() {
    // out of order, twice, and a custom section with its bytes
    let mut iter = Source::new(vec![
        0x00, 0x61, 0x73, 0x6d, 0x01, 0x00, 0x00, 0x00, 0x08, 0x01, 0x05, 0x03, 0x02, 0x01, 0x02, 0x00, 0x04, 0x01,
        0x61, 0xDE, 0xAD, 0x03, 0x01, 0x00,
    ]);
    let Module { sections, .. } = deserialize(&mut iter).unwrap();
    assert_eq!(
        sections,
        List(vec![
            Section::Start(StartSection { start: FuncIdx(5) }),
            Section::Function(FuncSection { funcs: vec![TypeIdx(2)] }),
            Section::Custom(CustomSection { name: String::from("a"), payload: List(vec![Byte(0xDE), Byte(0xAD)]) }),
            Section::Function(FuncSection { funcs: vec![] }),
        ])
    );
}

#[test]
fn every_section_is_decoded() {
    let parse = |bytes: Vec<u8>| Section::parse(&mut Source::new(bytes));
    assert_eq!(
        parse(vec![
            0x02, 0x1E, 0x04, 0x01, 0x6D, 0x01, 0x66, 0x00, 0x01, 0x01, 0x6D, 0x01, 0x74, 0x01, 0x70, 0x01, 0x01,
            0x02, 0x01, 0x6D, 0x01, 0x6D, 0x02, 0x00, 0x01, 0x01, 0x6D, 0x01, 0x67, 0x03, 0x7D, 0x01,
        ]),
        Ok(Section::Import(ImportSection {
            imports: vec![
                Import { module: "m".into(), name: "f".into(), desc: ImportDesc::Func(TypeIdx(1)) },
                Import {
                    module: "m".into(),
                    name: "t".into(),
                    desc: ImportDesc::Table(TableType { et: ElemType::FuncRef, lim: Limits::MinMax(1, 2) })
                },
                Import { module: "m".into(), name: "m".into(), desc: ImportDesc::Mem(MemType { lim: Limits::Min(1) }) },
                Import {
                    module: "m".into(),
                    name: "g".into(),
                    desc: ImportDesc::Global(GlobalType { t: ValType::F32, m: Mut::Var })
                },
            ]
        }))
    );
    assert_eq!(
        parse(vec![0x05, 0x04, 0x01, 0x01, 0x01, 0x02]),
        Ok(Section::Memory(MemorySection { mems: vec![Memory { ty: MemType { lim: Limits::MinMax(1, 2) } }] }))
    );
    assert_eq!(
        parse(vec![0x06, 0x06, 0x01, 0x7F, 0x00, 0x41, 0x07, 0x0B]),
        Ok(Section::Global(GlobalSection {
            globals: vec![Global {
                ty: GlobalType { t: ValType::I32, m: Mut::Const },
                init: Expression(vec![Instruction::ConstI32(7)])
            }]
        }))
    );
    assert_eq!(
        parse(vec![0x07, 0x0D, 0x03, 0x01, 0x74, 0x01, 0x00, 0x01, 0x6D, 0x02, 0x00, 0x01, 0x67, 0x03, 0x01]),
        Ok(Section::Export(ExportSection {
            exports: vec![
                Export { name: "t".into(), desc: ExportDesc::Table(TableIdx(0)) },
                Export { name: "m".into(), desc: ExportDesc::Mem(MemIdx(0)) },
                Export { name: "g".into(), desc: ExportDesc::Global(GlobalIdx(1)) },
            ]
        }))
    );
    assert_eq!(
        parse(vec![0x09, 0x08, 0x01, 0x00, 0x41, 0x01, 0x0B, 0x02, 0x00, 0x01]),
        Ok(Section::Element(ElementSection {
            elem: vec![Element {
                table: TableIdx(0),
                offset: Expression(vec![Instruction::ConstI32(1)]),
                init: vec![FuncIdx(0), FuncIdx(1)]
            }]
        }))
    );
    assert_eq!(
        parse(vec![0x0A, 0x0B, 0x01, 0x09, 0x02, 0x02, 0x7F, 0x01, 0x7D, 0x20, 0x00, 0x1A, 0x0B]),
        Ok(Section::Code(CodeSection {
            funcs: vec![Function {
                locals: vec![Locals { n: 2, ty: ValType::I32 }, Locals { n: 1, ty: ValType::F32 }],
                code: Expression(vec![Instruction::LocalGet(LocalIdx(0)), Instruction::Drop])
            }]
        }))
    );
    assert_eq!(
        parse(vec![0x0B, 0x09, 0x01, 0x00, 0x41, 0x08, 0x0B, 0x03, 0x01, 0x02, 0x03]),
        Ok(Section::Data(DataSection {
            data: vec![Data {
                data: MemIdx(0),
                offset: Expression(vec![Instruction::ConstI32(8)]),
                init: vec![Byte(1), Byte(2), Byte(3)]
            }]
        }))
    );
    assert_eq!(parse(vec![0x0C, 0x00]), Err(whasm::binary::Error::InvalidVariantId { id: 0x0C, ty: "Section" }));
    assert_eq!(parse(vec![0x08, 0x02, 0x05]), Err(whasm::binary::Error::SizeMissmatch));
    assert_eq!(parse(vec![0x08, 0x02, 0x85, 0x00, 0x00]), Ok(Section::Start(StartSection { start: FuncIdx(5) })));
    assert_eq!(
        parse(vec![0x0A, 0x06, 0x01, 0x03, 0x00, 0x41, 0x2A, 0x0B]),
        Err(whasm::binary::Error::UnexpectedEndOfFile)
    );
    assert_eq!(
        parse(vec![0x0A, 0x07, 0x01, 0x05, 0x00, 0x41, 0x2A, 0x0B, 0x00]),
        Err(whasm::binary::Error::SizeMissmatch)
    );
}

#[test]
fn types_are_selected_by_their_byte() {
    assert_eq!(deserialize::<ValType>(&mut Source::new(vec![0x7E])), Ok(ValType::I64));
    assert_eq!(
        deserialize::<ValType>(&mut Source::new(vec![0x7B])),
        Err(Error::InvalidEnumDiscriminant { ident: "ValType", discriminant: 0x7B })
    );
    assert_eq!(deserialize::<BlockType>(&mut Source::new(vec![0x40])), Ok(BlockType::Empty));
    assert_eq!(deserialize::<BlockType>(&mut Source::new(vec![0x7C])), Ok(BlockType::Value(ValType::F64)));
    assert_eq!(
        deserialize::<BlockType>(&mut Source::new(vec![0x41])),
        Err(Error::InvalidEnumDiscriminant { ident: "ValType", discriminant: 0x41 })
    );
    assert_eq!(deserialize::<BlockType>(&mut Source::new(vec![])), Err(Error::UnexpectedEndOfStream));
    assert_eq!(deserialize::<Limits>(&mut Source::new(vec![0x00, 0x03])), Ok(Limits::Min(3)));
    assert_eq!(deserialize::<Limits>(&mut Source::new(vec![0x01, 0x03, 0x04])), Ok(Limits::MinMax(3, 4)));
    assert_eq!(
        deserialize::<Limits>(&mut Source::new(vec![0x02, 0x03])),
        Err(Error::InvalidEnumDiscriminant { ident: "Limits", discriminant: 2 })
    );
    assert_eq!(
        deserialize::<FuncType>(&mut Source::new(vec![0x60, 0x02, 0x7F, 0x7E, 0x01, 0x7D])),
        Ok(FuncType::Func { params: vec![ValType::I32, ValType::I64], results: vec![ValType::F32] })
    );
    assert_eq!(
        deserialize::<GlobalType>(&mut Source::new(vec![0x7C, 0x01])),
        Ok(GlobalType { t: ValType::F64, m: Mut::Var })
    );
    assert_eq!(
        deserialize::<TableType>(&mut Source::new(vec![0x70, 0x00, 0x09])),
        Ok(TableType { et: ElemType::FuncRef, lim: Limits::Min(9) })
    );
    assert_eq!(deserialize::<LabelIdx>(&mut Source::new(vec![0x80, 0x01])), Ok(LabelIdx(128)));
}

#[test]
fn instructions_are_selected_by_their_opcode() {
    let parse = |bytes: Vec<u8>| deserialize::<Instruction>(&mut Source::new(bytes));
    for byte in 0..=255u8 {
        let bytes = match byte {
            0x02 | 0x03 | 0x04 => vec![byte, 0x40, 0x0B],
            _ => vec![byte, 0, 0, 0, 0, 0, 0, 0, 0],
        };
        let legal = matches!(byte, 0x00..=0x05 | 0x0B..=0x11 | 0x1A | 0x1B | 0x20..=0x24 | 0x28..=0xBF);
        if legal {
            assert!(parse(bytes).is_ok(), "opcode {:#04X}", byte);
        } else {
            assert_eq!(parse(bytes), Err(Error::InvalidEnumDiscriminant { ident: "Instruction", discriminant: byte }));
        }
    }
    assert_eq!(parse(vec![0x28, 0x02, 0x10]), Ok(Instruction::I32Load(MemArg { align: 2, offset: 16 })));
    assert_eq!(parse(vec![0x3E, 0x00, 0x07]), Ok(Instruction::I64Store32(MemArg { align: 0, offset: 7 })));
    assert_eq!(parse(vec![0x0C, 0x03]), Ok(Instruction::Br(LabelIdx(3))));
    assert_eq!(parse(vec![0x0E, 0x01, 0x04, 0x02]), Ok(Instruction::BrTable(vec![LabelIdx(4)], LabelIdx(2))));
    assert_eq!(parse(vec![0x11, 0x02, 0x00]), Ok(Instruction::CallIndirect(FuncIdx(2), TableIdx(0))));
    assert_eq!(parse(vec![0x3F, 0x00]), Ok(Instruction::MemSize(MemIdx(0))));
    assert_eq!(parse(vec![0x42, 0x7F]), Ok(Instruction::ConstI64(-1)));
    assert_eq!(parse(vec![0x43, 0x00, 0x00, 0x80, 0x3F]), Ok(Instruction::ConstF32(F32(1.0f32.to_bits()))));
    assert_eq!(
        parse(vec![0x44, 0x18, 0x2D, 0x44, 0x54, 0xFB, 0x21, 0x09, 0x40]),
        Ok(Instruction::ConstF64(F64(std::f64::consts::PI.to_bits())))
    );
    assert_eq!(
        parse(vec![0x03, 0x7F, 0x41, 0x01, 0x0B]),
        Ok(Instruction::Loop(BlockInstr {
            ty: BlockType::Value(ValType::I32),
            instr: Expression(vec![Instruction::ConstI32(1)])
        }))
    );
    assert_eq!(
        parse(vec![0x02, 0x40, 0x04, 0x40, 0x01, 0x05, 0x0B, 0x0B]),
        Ok(Instruction::Block(BlockInstr {
            ty: BlockType::Empty,
            instr: Expression(vec![Instruction::If(IfInstr {
                ty: BlockType::Empty,
                then_instr: Expression(vec![Instruction::Nop]),
                else_instr: Expression(vec![]),
            })])
        }))
    );
    assert_eq!(
        deserialize::<LoadInstr>(&mut Source::new(vec![0x2A, 0x02, 0x00])),
        Ok(LoadInstr::F32(MemArg { align: 2, offset: 0 }))
    );
    assert_eq!(
        deserialize::<LoadInstr>(&mut Source::new(vec![0x2C, 0x02, 0x00])),
        Err(Error::InvalidEnumDiscriminant { ident: "LoadInstr", discriminant: 0x2C })
    );
    assert_eq!(
        deserialize::<InstrList>(&mut Source::new(vec![0x01, 0x05, 0x0B])),
        Ok(InstrList(vec![Instruction::Nop], Instruction::Else))
    );
}

#[test]
fn instr_can_deserialize_expression() {
    let mut iter = Source::new(vec![0x01, 0x01, 0x01, 0x0B]);
    let result: Expression = deserialize(&mut iter).unwrap();
    assert_eq!(result, Expression(vec![Instruction::Nop, Instruction::Nop, Instruction::Nop]));
}

#[test]
#[should_panic]
fn instr_fails_to_deserialize_expression_with_else_instruction() {
    let mut iter = Source::new(vec![0x01, 0x01, 0x01, 0x05, 0x01, 0x01, 0x0B]);
    let _: Expression = deserialize(&mut iter).unwrap();
}

#[test]
fn instr_can_deserialize_if_instruction() {
    let mut iter = Source::new(vec![0x40, 0x01, 0x01, 0x05, 0x01, 0x0B]);
    let result: IfInstr = deserialize(&mut iter).unwrap();
    assert_eq!(
        result,
        IfInstr {
            ty: BlockType::Empty,
            then_instr: Expression(vec![Instruction::Nop, Instruction::Nop]),
            else_instr: Expression(vec![Instruction::Nop]),
        }
    );
}

#[test]
fn instr_can_deserialize_if_instruction_without_else_branch() {
    let mut iter = Source::new(vec![0x40, 0x01, 0x01, 0x01, 0x0B]);
    let result: IfInstr = deserialize(&mut iter).unwrap();
    assert_eq!(
        result,
        IfInstr {
            ty: BlockType::Empty,
            then_instr: Expression(vec![Instruction::Nop, Instruction::Nop, Instruction::Nop]),
            else_instr: Expression(vec![]),
        }
    );
}

#[test]
#[should_panic]
fn instr_fails_to_deserialize_if_instruction_without_two_else_instructions() {
    let mut iter = Source::new(vec![0x40, 0x01, 0x01, 0x05, 0x01, 0x05]);
    let _: IfInstr = deserialize(&mut iter).unwrap();
}

#[test]
fn instruction_can_deserialize_expression() {
    let mut iter = Source::new(vec![0x01, 0x01, 0x01, 0x0B]);
    let result = deserialize_expression(&mut iter).unwrap();
    assert_eq!(result, Expression(vec![Instruction::Nop, Instruction::Nop, Instruction::Nop]));
}

#[test]
#[should_panic]
fn instruction_fails_to_deserialize_expression_with_else_instruction() {
    let mut iter = Source::new(vec![0x01, 0x01, 0x01, 0x05, 0x01, 0x01, 0x0B]);
    let _ = deserialize_expression(&mut iter).unwrap();
}

#[test]
fn instruction_can_deserialize_if_instruction() {
    let mut iter = Source::new(vec![0x40, 0x01, 0x01, 0x05, 0x01, 0x0B]);
    let result = deserialize_if(&mut iter).unwrap();
    assert_eq!(
        result,
        IfInstr {
            ty: BlockType::Empty,
            then_instr: Expression(vec![Instruction::Nop, Instruction::Nop]),
            else_instr: Expression(vec![Instruction::Nop]),
        }
    );
}

#[test]
fn instruction_can_deserialize_if_instruction_without_else_branch() {
    let mut iter = Source::new(vec![0x40, 0x01, 0x01, 0x01, 0x0B]);
    let result = deserialize_if(&mut iter).unwrap();
    assert_eq!(
        result,
        IfInstr {
            ty: BlockType::Empty,
            then_instr: Expression(vec![Instruction::Nop, Instruction::Nop, Instruction::Nop]),
            else_instr: Expression(vec![]),
        }
    );
}

#[test]
#[should_panic]
fn instruction_fails_to_deserialize_if_instruction_without_two_else_instructions() {
    let mut iter = Source::new(vec![0x40, 0x01, 0x01, 0x05, 0x01, 0x05]);
    let _ = deserialize_if(&mut iter).unwrap();
}

#[test]
fn expression_with_else_is_an_unexpected_instruction() {
    assert_eq!(
        deserialize::<Expression>(&mut Source::new(vec![0x01, 0x05, 0x0B])),
        Err(Error::UnexpectedInstruction { ident: "Else" })
    );
    assert_eq!(
        deserialize::<IfInstr>(&mut Source::new(vec![0x40, 0x01, 0x05, 0x01, 0x05])),
        Err(Error::UnexpectedInstruction { ident: "Else" })
    );
    assert_eq!(
        deserialize::<Expression>(&mut Source::new(vec![0x01, 0x01])),
        Err(Error::UnexpectedEndOfStream)
    );
}
