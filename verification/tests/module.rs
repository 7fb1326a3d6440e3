use whasm::binary::instr::{parse_if, SubExpr, Terminator};
use whasm::binary::module::decode;
use whasm::binary::{Byte, Error, WasmBinary};
use whasm::grammar;
use whasm::source::Source;
use whasm::structure::instr::{ConstExpr, Expr, Instr, F32, F64};
use whasm::structure::{idx, module, ty};

const PREAMBLE: [u8; 8] = [0x00, 0x61, 0x73, 0x6D, 0x01, 0x00, 0x00, 0x00];

fn with_preamble(sections: &[&[u8]]) -> Vec<u8> {
    let mut bytes = PREAMBLE.to_vec();
    for section in sections {
        bytes.extend_from_slice(section);
    }
    bytes
}

/// The module that exports a function `main` that returns 42.
fn answer() -> module::Module {
    let mut expected = module::Module::default();
    expected.types = vec![ty::Func { params: vec![], results: vec![ty::Val::I32] }];
    expected.funcs =
        vec![module::Func { ty: idx::Type(0), locals: vec![], body: Expr(vec![Instr::ConstI32(42)]) }];
    expected.exports = vec![module::Export { name: "main".into(), desc: module::desc::Export::Func(idx::Func(0)) }];
    expected
}

const TYPES: [u8; 7] = [0x01, 0x05, 0x01, 0x60, 0x00, 0x01, 0x7F];
const FUNCTIONS: [u8; 4] = [0x03, 0x02, 0x01, 0x00];
const EXPORTS: [u8; 10] = [0x07, 0x08, 0x01, 0x04, 0x6D, 0x61, 0x69, 0x6E, 0x00, 0x00];
const CODE: [u8; 8] = [0x0A, 0x06, 0x01, 0x04, 0x00, 0x41, 0x2A, 0x0B];

#[test]
fn can_deserialize_wasm_file() {
    let mut iter = Source::new(vec![
        0x00, 0x61, 0x73, 0x6d, 0x01, 0x00, 0x00, 0x00, 0x01, 0x85, 0x80, 0x80, 0x80, 0x00, 0x01, 0x60, 0x00, 0x01,
        0x7f, 0x03, 0x82, 0x80, 0x80, 0x80, 0x00, 0x01, 0x00, 0x04, 0x84, 0x80, 0x80, 0x80, 0x00, 0x01, 0x70, 0x00,
        0x00, 0x06, 0x81, 0x80, 0x80, 0x80, 0x00, 0x00, 0x07, 0x88, 0x80, 0x80, 0x80, 0x00, 0x01, 0x04, 0x74, 0x65,
        0x73, 0x74, 0x00, 0x00, 0x0a, 0x8a, 0x80, 0x80, 0x80, 0x00, 0x01, 0x84, 0x80, 0x80, 0x80, 0x00, 0x00, 0x41,
        0x2a, 0x0b,
    ]);
    let result: module::Module = iter.parse().unwrap();

    assert_eq!(
        result,
        module::Module {
            types: vec![ty::Func { params: vec![], results: vec![ty::Val::I32] },],
            funcs: vec![module::Func {
                ty: idx::Type(0),
                locals: vec![],
                body: Expr(vec![Instr::ConstI32(42)])
            },],
            tables: vec![module::Table {
                ty: ty::Table { lim: ty::Limits { min: 0, max: None }, elem: ty::Elem::FuncRef }
            },],
            mems: vec![],
            globals: vec![],
            elem: vec![],
            data: vec![],
            start: None,
            imports: vec![],
            exports: vec![module::Export { name: "test".into(), desc: module::desc::Export::Func(idx::Func(0)) },]
        }
    );
}

#[test]
fn minimal_module_is_empty() {
    let result = decode(PREAMBLE.to_vec()).unwrap();
    assert_eq!(result, module::Module::default());
    assert!(result.types.is_empty() && result.funcs.is_empty() && result.tables.is_empty());
    assert!(result.mems.is_empty() && result.globals.is_empty() && result.elem.is_empty());
    assert!(result.data.is_empty() && result.imports.is_empty() && result.exports.is_empty());
    assert_eq!(result.start, None);
}

#[test]
fn module_with_one_function() {
    let result = decode(vec![
        0x00, 0x61, 0x73, 0x6D, 0x01, 0x00, 0x00, 0x00, 0x01, 0x05, 0x01, 0x60, 0x00, 0x01, 0x7F, 0x03, 0x02, 0x01,
        0x00, 0x07, 0x08, 0x01, 0x04, 0x6D, 0x61, 0x69, 0x6E, 0x00, 0x00, 0x0A, 0x06, 0x01, 0x04, 0x00, 0x41, 0x2A,
        0x0B,
    ])
    .unwrap();
    assert_eq!(result, answer());
    assert_eq!(decode(with_preamble(&[&TYPES, &FUNCTIONS, &EXPORTS, &CODE])), Ok(answer()));
}

#[test]
fn preamble_is_checked() {
    assert_eq!(decode(vec![0x00, 0x61, 0x73, 0x6D, 0x02, 0x00, 0x00, 0x00]), Err(Error::InvalidPreambleVersion));
    assert_eq!(decode(vec![0x00, 0x61, 0x73, 0x6D, 0x01, 0x00, 0x00, 0x01]), Err(Error::InvalidPreambleVersion));
    assert_eq!(decode(vec![0x01, 0x61, 0x73, 0x6D, 0x01, 0x00, 0x00, 0x00]), Err(Error::InvalidPreambleMagic));
    assert_eq!(decode(vec![0x00, 0x61, 0x73, 0x6E, 0x02, 0x00, 0x00, 0x00]), Err(Error::InvalidPreambleMagic));
    assert_eq!(decode(vec![0x00, 0x61, 0x73]), Err(Error::UnexpectedEndOfFile));
    assert_eq!(decode(vec![0x00, 0x61, 0x73, 0x6D, 0x01, 0x00]), Err(Error::UnexpectedEndOfFile));
    assert_eq!(decode(vec![]), Err(Error::UnexpectedEndOfFile));
}

/// A section of the given id whose body decodes and holds nothing.
fn empty_section(id: u8) -> Vec<u8> {
    vec![id, 0x01, 0x00]
}

#[test]
fn sections_must_rise() {
    for a in 1..=11u8 {
        for b in 1..=11u8 {
            let result = decode(with_preamble(&[&empty_section(a), &empty_section(b)]));
            if a < b {
                assert!(result.is_ok(), "{} then {}", a, b);
            } else {
                assert_eq!(result, Err(Error::UnexpectedSectionId { id: Byte(b) }), "{} then {}", a, b);
            }
            for c in 1..=11u8 {
                let result = decode(with_preamble(&[&empty_section(a), &empty_section(b), &empty_section(c)]));
                if a < b && b < c {
                    assert!(result.is_ok(), "{} then {} then {}", a, b, c);
                } else if a < b {
                    assert_eq!(result, Err(Error::UnexpectedSectionId { id: Byte(c) }));
                } else {
                    assert_eq!(result, Err(Error::UnexpectedSectionId { id: Byte(b) }));
                }
            }
        }
    }
}

#[test]
fn unknown_section_is_refused() {
    assert_eq!(decode(with_preamble(&[&[0x0C, 0x01, 0x00]])), Err(Error::InvalidSectionId { id: Byte(0x0C) }));
    assert_eq!(
        decode(with_preamble(&[&TYPES, &[0xFF, 0x01, 0x00]])),
        Err(Error::InvalidSectionId { id: Byte(0xFF) })
    );
    assert_eq!(
        decode(with_preamble(&[&empty_section(11), &[0x0C, 0x01, 0x00]])),
        Err(Error::InvalidSectionId { id: Byte(0x0C) })
    );
}

#[test]
fn custom_sections_are_skipped() {
    let named: [u8; 9] = [0x00, 0x07, 0x04, 0x6E, 0x61, 0x6D, 0x65, 0xDE, 0xAD];
    let bare: [u8; 3] = [0x00, 0x01, 0x00];
    assert_eq!(decode(with_preamble(&[&named])), Ok(module::Module::default()));
    assert_eq!(decode(with_preamble(&[&bare, &bare, &named])), Ok(module::Module::default()));
    let sections: [&[u8]; 4] = [&TYPES, &FUNCTIONS, &EXPORTS, &CODE];
    for at in 0..=sections.len() {
        for count in 1..=3 {
            let mut parts: Vec<&[u8]> = Vec::new();
            parts.extend_from_slice(&sections[..at]);
            for k in 0..count {
                parts.push(if k % 2 == 0 { &named } else { &bare });
            }
            parts.extend_from_slice(&sections[at..]);
            assert_eq!(decode(with_preamble(&parts)), Ok(answer()), "{} custom sections at {}", count, at);
        }
    }
    let everywhere: [&[u8]; 9] = [&named, &TYPES, &bare, &FUNCTIONS, &named, &EXPORTS, &named, &CODE, &bare];
    assert_eq!(decode(with_preamble(&everywhere)), Ok(answer()));
}

#[test]
fn custom_section_must_hold_a_name() {
    // the name claims more bytes than the section has
    assert_eq!(decode(with_preamble(&[&[0x00, 0x02, 0x04, 0x6E]])), Err(Error::UnexpectedEndOfFile));
    // the name is not UTF-8
    assert_eq!(decode(with_preamble(&[&[0x00, 0x02, 0x01, 0xFF]])), Err(Error::InvalidUtf8Encoding));
    // the section claims more bytes than there are
    assert_eq!(decode(with_preamble(&[&[0x00, 0x05, 0x01, 0x41]])), Err(Error::SizeMissmatch));
}

/// `section` with the number `delta` added to its size, which is one byte.
fn resized(section: &[u8], delta: i8) -> Vec<u8> {
    let mut bytes = section.to_vec();
    bytes[1] = (bytes[1] as i8 + delta) as u8;
    bytes
}

#[test]
fn sections_must_have_their_size() {
    let sections: [&[u8]; 4] = [&TYPES, &FUNCTIONS, &EXPORTS, &CODE];
    for at in 0..sections.len() {
        for delta in [-1i8, 1] {
            let wrong = resized(sections[at], delta);
            let mut parts: Vec<&[u8]> = sections.to_vec();
            parts[at] = &wrong;
            assert!(decode(with_preamble(&parts)).is_err(), "section {} resized by {}", at, delta);
        }
    }
    // one byte too many is a size mismatch, where a byte follows the section
    assert_eq!(
        decode(with_preamble(&[&resized(&TYPES, 1), &FUNCTIONS, &EXPORTS, &CODE])),
        Err(Error::SizeMissmatch)
    );
    assert_eq!(
        decode(with_preamble(&[&TYPES, &resized(&FUNCTIONS, 1), &EXPORTS, &CODE])),
        Err(Error::SizeMissmatch)
    );
    // the size of a function's code is held to as well
    assert_eq!(
        decode(with_preamble(&[&TYPES, &FUNCTIONS, &[0x0A, 0x06, 0x01, 0x03, 0x00, 0x41, 0x2A, 0x0B]])),
        Err(Error::UnexpectedEndOfFile)
    );
    assert_eq!(
        decode(with_preamble(&[&TYPES, &FUNCTIONS, &[0x0A, 0x07, 0x01, 0x05, 0x00, 0x41, 0x2A, 0x0B, 0x00]])),
        Err(Error::SizeMissmatch)
    );
}

#[test]
fn custom_section_may_be_decoded_with_another_size() {
    // a custom section without a name, and an import section without imports
    let honest: [&[u8]; 2] = [&[0x00, 0x01, 0x00], &[0x00, 0x02, 0x01, 0x00]];
    assert_eq!(decode(with_preamble(&honest)), Ok(module::Module::default()));
    // the first section with a size of 2 takes the id of the second for its last byte
    let longer: [&[u8]; 2] = [&[0x00, 0x02, 0x00], &[0x00, 0x02, 0x01, 0x00]];
    assert_eq!(decode(with_preamble(&longer)), Ok(module::Module::default()));
}

#[test]
fn functions_and_code_must_agree() {
    // a function without code
    assert_eq!(decode(with_preamble(&[&TYPES, &FUNCTIONS])), Err(Error::UnexpectedEndOfFile));
    assert_eq!(decode(with_preamble(&[&TYPES, &FUNCTIONS, &EXPORTS])), Err(Error::UnexpectedEndOfFile));
    // code without a function
    assert_eq!(decode(with_preamble(&[&TYPES, &CODE])), Err(Error::UnexpectedEndOfFile));
    // more code than functions
    let two: [u8; 13] = [0x0A, 0x0B, 0x02, 0x04, 0x00, 0x41, 0x2A, 0x0B, 0x04, 0x00, 0x41, 0x2B, 0x0B];
    assert_eq!(decode(with_preamble(&[&TYPES, &FUNCTIONS, &two])), Err(Error::UnexpectedEndOfFile));
    // each function gets its type
    let types: [u8; 5] = [0x03, 0x03, 0x02, 0x01, 0x00];
    let result = decode(with_preamble(&[&types, &two])).unwrap();
    assert_eq!(result.funcs.len(), 2);
    assert_eq!(result.funcs[0].ty, idx::Type(1));
    assert_eq!(result.funcs[1].ty, idx::Type(0));
    assert_eq!(result.funcs[1].body, Expr(vec![Instr::ConstI32(43)]));
    // no functions and no code
    assert_eq!(decode(with_preamble(&[&empty_section(3), &empty_section(10)])), Ok(module::Module::default()));
}

#[test]
fn every_section_fills_its_part() {
    let result = decode(with_preamble(&[
        // types: [i32, i64] -> [], [] -> [f64]
        &[0x01, 0x0A, 0x02, 0x60, 0x02, 0x7F, 0x7E, 0x00, 0x60, 0x00, 0x01, 0x7C],
        // imports: "m"."f" function of type 1, "m"."t" table, "m"."m" memory, "m"."g" global
        &[
            0x02, 0x1E, 0x04, 0x01, 0x6D, 0x01, 0x66, 0x00, 0x01, 0x01, 0x6D, 0x01, 0x74, 0x01, 0x70, 0x01, 0x01,
            0x02, 0x01, 0x6D, 0x01, 0x6D, 0x02, 0x00, 0x01, 0x01, 0x6D, 0x01, 0x67, 0x03, 0x7D, 0x01,
        ],
        // functions: one of type 0
        &[0x03, 0x02, 0x01, 0x00],
        // tables: funcref, at least 3
        &[0x04, 0x04, 0x01, 0x70, 0x00, 0x03],
        // memories: 1 to 2 pages
        &[0x05, 0x04, 0x01, 0x01, 0x01, 0x02],
        // globals: const i32 = 7
        &[0x06, 0x06, 0x01, 0x7F, 0x00, 0x41, 0x07, 0x0B],
        // exports: "e" memory 0
        &[0x07, 0x05, 0x01, 0x01, 0x65, 0x02, 0x00],
        // start: function 0
        &[0x08, 0x01, 0x00],
        // elements: table 0, offset 1, functions 0 and 1
        &[0x09, 0x08, 0x01, 0x00, 0x41, 0x01, 0x0B, 0x02, 0x00, 0x01],
        // code: locals 2 x i32, 1 x f32; body: local.get 0, drop
        &[0x0A, 0x0B, 0x01, 0x09, 0x02, 0x02, 0x7F, 0x01, 0x7D, 0x20, 0x00, 0x1A, 0x0B],
        // data: memory 0, offset 8, bytes 1 2 3
        &[0x0B, 0x09, 0x01, 0x00, 0x41, 0x08, 0x0B, 0x03, 0x01, 0x02, 0x03],
    ]))
    .unwrap();
    assert_eq!(
        result,
        module::Module {
            types: vec![
                ty::Func { params: vec![ty::Val::I32, ty::Val::I64], results: vec![] },
                ty::Func { params: vec![], results: vec![ty::Val::F64] },
            ],
            funcs: vec![module::Func {
                ty: idx::Type(0),
                locals: vec![ty::Val::I32, ty::Val::I32, ty::Val::F32],
                body: Expr(vec![Instr::LocalGet(idx::Local(0)), Instr::Drop]),
            }],
            tables: vec![module::Table {
                ty: ty::Table { lim: ty::Limits { min: 3, max: None }, elem: ty::Elem::FuncRef }
            }],
            mems: vec![module::Mem { ty: ty::Mem { lim: ty::Limits { min: 1, max: Some(2) } } }],
            globals: vec![module::Global {
                ty: ty::Global { mt: ty::Mut::Const, val: ty::Val::I32 },
                init: ConstExpr(vec![Instr::ConstI32(7)]),
            }],
            elem: vec![module::Elem {
                table: idx::Table(0),
                offset: ConstExpr(vec![Instr::ConstI32(1)]),
                init: vec![idx::Func(0), idx::Func(1)],
            }],
            data: vec![module::Data {
                mem: idx::Mem(0),
                offset: ConstExpr(vec![Instr::ConstI32(8)]),
                init: vec![1, 2, 3],
            }],
            start: Some(module::Start { func: idx::Func(0) }),
            imports: vec![
                module::Import {
                    module: "m".into(),
                    name: "f".into(),
                    desc: module::desc::Import::Func(idx::Type(1)),
                },
                module::Import {
                    module: "m".into(),
                    name: "t".into(),
                    desc: module::desc::Import::Table(ty::Table {
                        lim: ty::Limits { min: 1, max: Some(2) },
                        elem: ty::Elem::FuncRef,
                    }),
                },
                module::Import {
                    module: "m".into(),
                    name: "m".into(),
                    desc: module::desc::Import::Mem(ty::Mem { lim: ty::Limits { min: 1, max: None } }),
                },
                module::Import {
                    module: "m".into(),
                    name: "g".into(),
                    desc: module::desc::Import::Global(ty::Global { mt: ty::Mut::Var, val: ty::Val::F32 }),
                },
            ],
            exports: vec![module::Export { name: "e".into(), desc: module::desc::Export::Mem(idx::Mem(0)) }],
        }
    );
}

#[test]
fn variants_are_selected_by_their_byte() {
    assert_eq!(Source::new(vec![0x02, 0x00]).parse::<ty::Limits>(), Err(Error::InvalidVariantId { id: 2, ty: "ty::Limits" }));
    assert_eq!(Source::new(vec![0x7B]).parse::<ty::Val>(), Err(Error::InvalidVariantId { id: 0x7B, ty: "ty::Val" }));
    assert_eq!(Source::new(vec![0x6F, 0x00, 0x00]).parse::<ty::Table>(), Err(Error::InvalidVariantId { id: 0x6F, ty: "ty::Elem" }));
    assert_eq!(Source::new(vec![0x7F, 0x02]).parse::<ty::Global>(), Err(Error::InvalidVariantId { id: 2, ty: "ty::Mut" }));
    assert_eq!(Source::new(vec![0x61, 0x00, 0x00]).parse::<ty::Func>(), Err(Error::InvalidVariantId { id: 0x61, ty: "ty::Func" }));
    assert_eq!(Source::new(vec![0x41]).parse::<ty::RetVal>(), Err(Error::InvalidVariantId { id: 0x41, ty: "ty::Val" }));
    assert_eq!(Source::new(vec![0x40]).parse::<ty::RetVal>(), Ok(ty::RetVal(vec![])));
    assert_eq!(Source::new(vec![0x7E]).parse::<ty::RetVal>(), Ok(ty::RetVal(vec![ty::Val::I64])));
    assert_eq!(
        Source::new(vec![0x04, 0x00]).parse::<module::desc::Import>(),
        Err(Error::InvalidVariantId { id: 4, ty: "module::desc::Import" })
    );
    assert_eq!(
        Source::new(vec![0x04, 0x00]).parse::<module::desc::Export>(),
        Err(Error::InvalidVariantId { id: 4, ty: "module::desc::Export" })
    );
    assert_eq!(Source::new(vec![0x7D, 0x01]).parse::<ty::Global>(), Ok(ty::Global { mt: ty::Mut::Var, val: ty::Val::F32 }));
}

// instructions

fn is_opcode(byte: u8) -> bool {
    matches!(byte, 0x00..=0x05 | 0x0B..=0x11 | 0x1A | 0x1B | 0x20..=0x24 | 0x28..=0xBF)
}

#[test]
fn every_opcode_and_nothing_else_is_an_instruction() {
    for byte in 0..=255u8 {
        let bytes = match byte {
            0x02 | 0x03 | 0x04 => vec![byte, 0x40, 0x0B],
            _ => vec![byte, 0, 0, 0, 0, 0, 0, 0, 0],
        };
        let result: Result<Instr, Error> = Source::new(bytes).parse();
        if is_opcode(byte) {
            assert!(result.is_ok(), "opcode {:#04X}", byte);
        } else {
            assert_eq!(result, Err(Error::InvalidVariantId { id: byte, ty: "instr::Instr" }));
        }
    }
}

#[test]
fn instructions_hold_their_immediates() {
    let parse = |bytes: Vec<u8>| Source::new(bytes).parse::<Instr>();
    assert_eq!(parse(vec![0x00]), Ok(Instr::Unreachable));
    assert_eq!(parse(vec![0x01]), Ok(Instr::Nop));
    assert_eq!(parse(vec![0x05]), Ok(Instr::Else));
    assert_eq!(parse(vec![0x0B]), Ok(Instr::End));
    assert_eq!(parse(vec![0x0C, 0x03]), Ok(Instr::Br(idx::Label(3))));
    assert_eq!(parse(vec![0x0D, 0x80, 0x01]), Ok(Instr::BrIf(idx::Label(128))));
    assert_eq!(
        parse(vec![0x0E, 0x02, 0x01, 0x00, 0x02]),
        Ok(Instr::BrTable(vec![idx::Label(1), idx::Label(0)], idx::Label(2)))
    );
    assert_eq!(parse(vec![0x0F]), Ok(Instr::Return));
    assert_eq!(parse(vec![0x10, 0x07]), Ok(Instr::Call(idx::Func(7))));
    assert_eq!(parse(vec![0x11, 0x02, 0x00]), Ok(Instr::CallIndirect(idx::Func(2), idx::Table(0))));
    assert_eq!(parse(vec![0x1A]), Ok(Instr::Drop));
    assert_eq!(parse(vec![0x1B]), Ok(Instr::Select));
    assert_eq!(parse(vec![0x20, 0x01]), Ok(Instr::LocalGet(idx::Local(1))));
    assert_eq!(parse(vec![0x21, 0x01]), Ok(Instr::LocalSet(idx::Local(1))));
    assert_eq!(parse(vec![0x22, 0x01]), Ok(Instr::LocalTee(idx::Local(1))));
    assert_eq!(parse(vec![0x23, 0x01]), Ok(Instr::GlobalGet(idx::Global(1))));
    assert_eq!(parse(vec![0x24, 0x01]), Ok(Instr::GlobalSet(idx::Global(1))));
    assert_eq!(parse(vec![0x28, 0x02, 0x10]), Ok(Instr::I32Load(2, 16)));
    assert_eq!(parse(vec![0x35, 0x02, 0x10]), Ok(Instr::I64Load32U(2, 16)));
    assert_eq!(parse(vec![0x36, 0x02, 0x80, 0x01]), Ok(Instr::I32Store(2, 128)));
    assert_eq!(parse(vec![0x3E, 0x00, 0x00]), Ok(Instr::I64Store32(0, 0)));
    assert_eq!(parse(vec![0x3F, 0x00]), Ok(Instr::MemSize(idx::Mem(0))));
    assert_eq!(parse(vec![0x40, 0x00]), Ok(Instr::MemGrow(idx::Mem(0))));
    assert_eq!(parse(vec![0x41, 0x7F]), Ok(Instr::ConstI32(-1)));
    assert_eq!(parse(vec![0x41, 0x80, 0x80, 0x80, 0x80, 0x78]), Ok(Instr::ConstI32(i32::MIN)));
    assert_eq!(parse(vec![0x42, 0xC0, 0xBB, 0x78]), Ok(Instr::ConstI64(-123456)));
    assert_eq!(parse(vec![0x43, 0x00, 0x00, 0x80, 0x3F]), Ok(Instr::ConstF32(F32(1.0f32.to_bits()))));
    assert_eq!(
        parse(vec![0x44, 0x18, 0x2D, 0x44, 0x54, 0xFB, 0x21, 0x09, 0x40]),
        Ok(Instr::ConstF64(F64(std::f64::consts::PI.to_bits())))
    );
    assert_eq!(parse(vec![0x45]), Ok(Instr::I32Eqz));
    assert_eq!(parse(vec![0x6A]), Ok(Instr::I32Add));
    assert_eq!(parse(vec![0xA7]), Ok(Instr::I32WrapI64));
    assert_eq!(parse(vec![0xBF]), Ok(Instr::F64ReinterpretI64));
    assert_eq!(parse(vec![0x41, 0x80, 0x80, 0x80, 0x80, 0x08]), Err(Error::OutOfRangeSignedInteger));
    assert_eq!(parse(vec![0x20, 0x80, 0x80, 0x80, 0x80, 0x10]), Err(Error::OutOfRangeUnsignedInteger));
    assert_eq!(parse(vec![0x43, 0x00, 0x00]), Err(Error::UnexpectedEndOfFile));
    assert_eq!(parse(vec![]), Err(Error::UnexpectedEndOfFile));
}

#[test]
fn blocks_hold_their_bodies() {
    let parse = |bytes: Vec<u8>| Source::new(bytes).parse::<Instr>();
    assert_eq!(parse(vec![0x02, 0x40, 0x0B]), Ok(Instr::Block(ty::RetVal(vec![]), Expr(vec![]))));
    assert_eq!(
        parse(vec![0x03, 0x7F, 0x41, 0x01, 0x0B]),
        Ok(Instr::Loop(ty::RetVal(vec![ty::Val::I32]), Expr(vec![Instr::ConstI32(1)])))
    );
    assert_eq!(
        parse(vec![0x02, 0x40, 0x03, 0x40, 0x0C, 0x01, 0x0B, 0x01, 0x0B]),
        Ok(Instr::Block(
            ty::RetVal(vec![]),
            Expr(vec![
                Instr::Loop(ty::RetVal(vec![]), Expr(vec![Instr::Br(idx::Label(1))])),
                Instr::Nop
            ])
        ))
    );
    assert_eq!(
        parse(vec![0x04, 0x7F, 0x41, 0x01, 0x05, 0x41, 0x02, 0x0B]),
        Ok(Instr::If(
            ty::RetVal(vec![ty::Val::I32]),
            Expr(vec![Instr::ConstI32(1)]),
            Expr(vec![Instr::ConstI32(2)])
        ))
    );
    assert_eq!(
        parse(vec![0x04, 0x40, 0x04, 0x40, 0x01, 0x05, 0x0B, 0x0B]),
        Ok(Instr::If(
            ty::RetVal(vec![]),
            Expr(vec![Instr::If(ty::RetVal(vec![]), Expr(vec![Instr::Nop]), Expr(vec![]))]),
            Expr(vec![])
        ))
    );
    assert_eq!(parse(vec![0x02, 0x40, 0x01, 0x05, 0x0B]), Err(Error::UnexpectedOpcode { instr: "Else" }));
    assert_eq!(parse(vec![0x03, 0x40, 0x05]), Err(Error::UnexpectedOpcode { instr: "Else" }));
    assert_eq!(parse(vec![0x02, 0x40, 0x01]), Err(Error::UnexpectedEndOfFile));
    assert_eq!(parse(vec![0x02, 0x00, 0x0B]), Err(Error::InvalidVariantId { id: 0, ty: "ty::Val" }));
    assert_eq!(
        parse(vec![0x04, 0x40, 0x01, 0x05, 0x01, 0x05, 0x0B]),
        Err(Error::UnexpectedOpcode { instr: "Unknown" })
    );
}

#[test]
fn sub_expression_stops_at_its_terminator() {
    let mut iter = Source::new(vec![0x01, 0x1A, 0x05, 0x01, 0x0B, 0x2A]);
    assert_eq!(iter.parse::<SubExpr>(), Ok(SubExpr(Expr(vec![Instr::Nop, Instr::Drop]), Terminator::Else)));
    assert_eq!(iter.parse::<SubExpr>(), Ok(SubExpr(Expr(vec![Instr::Nop]), Terminator::End)));
    assert_eq!(iter.next(), Some(0x2A));
}

#[test]
fn expression_ends_at_end() {
    let mut iter = Source::new(vec![0x01, 0x01, 0x01, 0x0B]);
    let result: Expr = iter.parse().unwrap();
    assert_eq!(result, Expr(vec![Instr::Nop, Instr::Nop, Instr::Nop]));
    let mut iter = Source::new(vec![0x01, 0x01, 0x01, 0x05, 0x01, 0x01, 0x0B]);
    let result: Result<Expr, Error> = iter.parse();
    assert_eq!(result, Err(Error::UnexpectedOpcode { instr: "Else" }));
    let mut iter = Source::new(vec![0x0B, 0x01]);
    assert_eq!(iter.parse::<Expr>(), Ok(Expr(vec![])));
    assert_eq!(iter.next(), Some(0x01));
    assert_eq!(Source::new(vec![0x41, 0x07, 0x0B]).parse::<ConstExpr>(), Ok(ConstExpr(vec![Instr::ConstI32(7)])));
    assert_eq!(Source::new(vec![0x41, 0x07, 0x05]).parse::<ConstExpr>(), Err(Error::UnexpectedOpcode { instr: "Else" }));
}

#[test]
fn if_has_one_or_two_branches() {
    let mut iter = Source::new(vec![0x40, 0x01, 0x01, 0x05, 0x01, 0x0B]);
    assert_eq!(
        parse_if(&mut iter),
        Ok(Instr::If(ty::RetVal(vec![]), Expr(vec![Instr::Nop, Instr::Nop]), Expr(vec![Instr::Nop])))
    );
    let mut iter = Source::new(vec![0x40, 0x01, 0x01, 0x01, 0x0B]);
    assert_eq!(
        parse_if(&mut iter),
        Ok(Instr::If(ty::RetVal(vec![]), Expr(vec![Instr::Nop, Instr::Nop, Instr::Nop]), Expr(vec![])))
    );
    let mut iter = Source::new(vec![0x40, 0x01, 0x01, 0x05, 0x01, 0x05]);
    assert_eq!(parse_if(&mut iter), Err(Error::UnexpectedOpcode { instr: "Unknown" }));
}

#[test]
fn failures_are_told_in_the_terms_of_the_grammar() {
    assert_eq!(
        grammar::deserialize::<Expr>(&mut Source::new(vec![0x01, 0x05])),
        Err(grammar::Error::UnexpectedInstruction { ident: "Else" })
    );
    assert_eq!(
        grammar::deserialize::<Instr>(&mut Source::new(vec![0x06])),
        Err(grammar::Error::InvalidEnumDiscriminant { ident: "instr::Instr", discriminant: 0x06 })
    );
    assert_eq!(
        grammar::deserialize::<module::Module>(&mut Source::new(vec![0x00, 0x61, 0x73, 0x6D, 0x02, 0x00, 0x00, 0x00])),
        Err(grammar::Error::UnsatisfiedMatch { expected: "version" })
    );
    assert_eq!(
        grammar::deserialize::<module::Module>(&mut Source::new(vec![0x00, 0x61, 0x73, 0x6E, 0x01, 0x00, 0x00, 0x00])),
        Err(grammar::Error::UnsatisfiedMatch { expected: "magic" })
    );
    assert_eq!(
        grammar::deserialize::<module::Module>(&mut Source::new(with_preamble(&[&[0x0C, 0x00]]))),
        Err(grammar::Error::InvalidEnumDiscriminant { ident: "Section", discriminant: 0x0C })
    );
    assert_eq!(
        grammar::deserialize::<module::Module>(&mut Source::new(with_preamble(&[&TYPES, &TYPES]))),
        Err(grammar::Error::InvalidEnumDiscriminant { ident: "Section", discriminant: 0x01 })
    );
    assert_eq!(
        grammar::deserialize::<module::Module>(&mut Source::new(with_preamble(&[&resized(&TYPES, 1), &CODE]))),
        Err(grammar::Error::RemainingBytesInStream { ident: "Sized" })
    );
}
