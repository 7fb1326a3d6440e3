//! A module as the sections that it is stored as.

use vstd::prelude::*;
use crate::binary::error::Error;
use crate::binary::module::{magic, version};
use crate::binary::primitive::byte::{lemma_repeat_bytes, Byte};
use crate::binary::primitive::traits::{Parsed, WasmBinaryGrammar, WasmBinaryParse};
use crate::grammar::primitive::list::{list_grammar, List};
use crate::grammar::section::{Section, SectionView};
use crate::source::Source;

verus! {

/// A module: the magic bytes, the version, and the sections in the order in
/// which they are stored.
#[derive(Debug, PartialEq)]
pub struct Module {
    pub magic: [Byte; 4],
    pub version: [Byte; 4],
    pub sections: List<Section>,
}

/// A module as a mathematical value.
pub struct ModuleView {
    pub magic: Seq<u8>,
    pub version: Seq<u8>,
    pub sections: Seq<SectionView>,
}

impl DeepView for Module {
    type V = ModuleView;

    open spec fn deep_view(&self) -> ModuleView {
        ModuleView {
            magic: self.magic.deep_view(),
            version: self.version.deep_view(),
            sections: self.sections.deep_view(),
        }
    }
}

/// The grammar of a module: the magic bytes, the version, and sections up to
/// the end of the bytes, in any order.
pub open spec fn module_grammar(s: Seq<u8>) -> Parsed<ModuleView> {
    if s.len() < 4 {
        Err(Error::UnexpectedEndOfFile)
    } else if s.take(4) != magic() {
        Err(Error::InvalidPreambleMagic)
    } else if s.len() < 8 {
        Err(Error::UnexpectedEndOfFile)
    } else if s.skip(4).take(4) != version() {
        Err(Error::InvalidPreambleVersion)
    } else {
        match list_grammar::<Section>(s.skip(8)) {
            Err(e) => Err(e),
            Ok((sections, n)) => Ok((ModuleView { magic: magic(), version: version(), sections }, 8 + n)),
        }
    }
}

impl WasmBinaryGrammar for Module {
    open spec fn grammar(s: Seq<u8>) -> Parsed<ModuleView> {
        module_grammar(s)
    }
}

/// Reads four raw bytes.
fn parse_quad(bin: &mut Source) -> (r: Result<[Byte; 4], Error>)
    ensures
        final(bin).beyond() == old(bin).beyond(),
        old(bin)@.len() < 4 ==> r == Err::<[Byte; 4], Error>(Error::UnexpectedEndOfFile),
        old(bin)@.len() >= 4 ==> {
            &&& r is Ok
            &&& r->Ok_0.deep_view() == old(bin)@.take(4)
            &&& forall|k: int| 0 <= k < 4 ==> (#[trigger] r->Ok_0[k]).0 == old(bin)@[k]
            &&& final(bin)@ == old(bin)@.skip(4)
        },
{
    proof {
        lemma_repeat_bytes(bin@, 4);
    }
    let quad = <[Byte; 4]>::parse(bin)?;
    assert forall|k: int| 0 <= k < 4 implies (#[trigger] quad[k]).0 == old(bin)@[k] by {
        assert(quad.deep_view()[k] == quad[k].0);
        assert(old(bin)@.take(4)[k] == old(bin)@[k]);
    }
    Ok(quad)
}

impl WasmBinaryParse for Module {
    fn parse(bin: &mut Source) -> (r: Result<Self, Error>) {
        let ghost s = bin@;
        let magic = parse_quad(bin)?;
        if magic[0].0 != 0x00 || magic[1].0 != 0x61 || magic[2].0 != 0x73 || magic[3].0 != 0x6D {
            assert(s.take(4)[0] == s[0] && s.take(4)[1] == s[1] && s.take(4)[2] == s[2] && s.take(4)[3] == s[3]);
            return Err(Error::InvalidPreambleMagic);
        }
        assert(s.take(4) =~= self::magic());
        let ghost t = s.skip(4);
        let version = parse_quad(bin)?;
        if version[0].0 != 0x01 || version[1].0 != 0x00 || version[2].0 != 0x00 || version[3].0 != 0x00 {
            assert(t.take(4)[0] == t[0] && t.take(4)[1] == t[1] && t.take(4)[2] == t[2] && t.take(4)[3] == t[3]);
            return Err(Error::InvalidPreambleVersion);
        }
        assert(t.take(4) =~= self::version());
        assert(bin@ =~= s.skip(8));
        let sections = List::<Section>::parse(bin)?;
        assert(bin@ =~= s.skip((8 + list_grammar::<Section>(s.skip(8))->Ok_0.1) as int));
        Ok(Module { magic, version, sections })
    }
}

} // verus!
