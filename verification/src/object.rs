//! The in-memory object: three sections with bytes, symbols and relocations.

use crate::endian::ascii_chars;
use vstd::prelude::*;

verus! {

/// The mathematical value of a symbol: its name as characters.
pub enum SymbolView {
    Undef { name: Seq<char> },
    Abs { name: Seq<char>, val: u64, ext: bool },
    Ref { name: Seq<char>, addr: u64, ext: bool },
}

impl SymbolView {
    /// The symbol's name.
    pub open spec fn name(self) -> Seq<char> {
        match self {
            SymbolView::Undef { name } => name,
            SymbolView::Abs { name, .. } => name,
            SymbolView::Ref { name, .. } => name,
        }
    }

    /// The name is ASCII and holds no NUL character, so it can stand in
    /// the string table.
    pub open spec fn wf_name(self) -> bool {
        &&& ascii_chars(self.name())
        &&& forall|i: int| 0 <= i < self.name().len() ==> (#[trigger] self.name()[i]) != 0 as char
    }

    /// The same symbol with its external bit set.
    pub open spec fn with_ext(self) -> SymbolView {
        match self {
            SymbolView::Undef { name } => SymbolView::Undef { name },
            SymbolView::Abs { name, val, ext } => SymbolView::Abs { name, val, ext: true },
            SymbolView::Ref { name, addr, ext } => SymbolView::Ref { name, addr, ext: true },
        }
    }
}

/// A symbol of the object.
#[derive(Debug, Clone, PartialEq, Eq)]
pub enum Symbol {
    /// Referenced here, defined in another module.
    Undef { name: String },
    /// An absolute value, optionally externally visible.
    Abs { name: String, val: u64, ext: bool },
    /// Defined at `addr` within its owning section.
    Ref { name: String, addr: u64, ext: bool },
}

impl View for Symbol {
    type V = SymbolView;

    open spec fn view(&self) -> SymbolView {
        match self {
            Symbol::Undef { name } => SymbolView::Undef { name: name@ },
            Symbol::Abs { name, val, ext } => SymbolView::Abs { name: name@, val: *val, ext: *ext },
            Symbol::Ref { name, addr, ext } => SymbolView::Ref {
                name: name@,
                addr: *addr,
                ext: *ext,
            },
        }
    }
}

impl Symbol {
    /// The symbol's name.
    pub fn name(&self) -> (r: &str)
        ensures
            r@ == self@.name(),
    {
        match self {
            Symbol::Undef { name } => name.as_str(),
            Symbol::Abs { name, .. } => name.as_str(),
            Symbol::Ref { name, .. } => name.as_str(),
        }
    }
}

/// The values of a list of symbols.
pub open spec fn sym_views(symbols: Seq<Symbol>) -> Seq<SymbolView> {
    symbols.map_values(|sym: Symbol| sym@)
}

/// The mathematical value of a relocation: its symbol name as characters.
pub struct RelocView {
    pub addr: i32,
    pub symbol: Seq<char>,
    pub pcrel: bool,
    pub len: u8,
}

impl RelocView {
    /// The patched range lies inside a section of `size` bytes, and the
    /// symbol name can stand in the string table.
    pub open spec fn wf(self, size: int) -> bool {
        &&& 0 <= self.addr
        &&& self.len <= 3
        &&& self.addr + reloc_width(self.len) <= size
        &&& ascii_chars(self.symbol)
        &&& forall|i: int| 0 <= i < self.symbol.len() ==> (#[trigger] self.symbol[i]) != 0 as char
    }
}

/// The number of bytes a relocation of the given length patches: `2^len`.
pub open spec fn reloc_width(len: u8) -> int {
    if len == 0 {
        1int
    } else if len == 1 {
        2int
    } else if len == 2 {
        4int
    } else {
        8int
    }
}

/// A relocation request against a symbol, by name.
#[derive(Debug, Clone, PartialEq, Eq)]
pub struct Reloc {
    /// The offset from the start of the owning section to the first byte
    /// of the field to patch.
    pub addr: i32,
    /// The name of the symbol whose address is to be stored.
    pub symbol: String,
    /// The width of the field: `2^len` bytes, `len` in `0..=3`.
    pub pcrel: bool,
    pub len: u8,
}

impl View for Reloc {
    type V = RelocView;

    open spec fn view(&self) -> RelocView {
        RelocView { addr: self.addr, symbol: self.symbol@, pcrel: self.pcrel, len: self.len }
    }
}

/// The values of a list of relocations.
pub open spec fn reloc_views(relocs: Seq<Reloc>) -> Seq<RelocView> {
    relocs.map_values(|r: Reloc| r@)
}

/// The text section: machine code with its symbols and relocations.
#[derive(Debug)]
pub struct TextSection {
    pub bytes: Vec<u8>,
    pub symbols: Vec<Symbol>,
    pub relocs: Vec<Reloc>,
}

impl TextSection {
    /// An empty text section.
    pub fn new() -> (r: TextSection)
        ensures
            r.bytes@ == Seq::<u8>::empty(),
            r.symbols@ == Seq::<Symbol>::empty(),
            r.relocs@ == Seq::<Reloc>::empty(),
    {
        TextSection { bytes: Vec::new(), symbols: Vec::new(), relocs: Vec::new() }
    }
}

/// The data section: initialized data with its symbols and relocations.
#[derive(Debug)]
pub struct DataSection {
    pub bytes: Vec<u8>,
    pub symbols: Vec<Symbol>,
    pub relocs: Vec<Reloc>,
}

impl DataSection {
    /// An empty data section.
    pub fn new() -> (r: DataSection)
        ensures
            r.bytes@ == Seq::<u8>::empty(),
            r.symbols@ == Seq::<Symbol>::empty(),
            r.relocs@ == Seq::<Reloc>::empty(),
    {
        DataSection { bytes: Vec::new(), symbols: Vec::new(), relocs: Vec::new() }
    }
}

/// The bss section: a declared size and symbols, with no bytes of its own.
#[derive(Debug)]
pub struct BssSection {
    pub size: u64,
    pub symbols: Vec<Symbol>,
}

impl BssSection {
    /// An empty bss section.
    pub fn new() -> (r: BssSection)
        ensures
            r.size == 0,
            r.symbols@ == Seq::<Symbol>::empty(),
    {
        BssSection { size: 0, symbols: Vec::new() }
    }
}

/// The three sections of an object, in their fixed order.
#[derive(Debug)]
pub struct Sections {
    pub text: TextSection,
    pub data: DataSection,
    pub bss: BssSection,
}

impl Sections {
    /// The number of non-empty sections.
    pub open spec fn spec_len(&self) -> int {
        (if self.text.bytes@.len() > 0 {
            1int
        } else {
            0int
        }) + (if self.data.bytes@.len() > 0 {
            1int
        } else {
            0int
        }) + (if self.bss.size > 0 {
            1int
        } else {
            0int
        })
    }

    /// The number of non-empty sections.
    pub fn len(&self) -> (r: u32)
        ensures
            r == self.spec_len(),
    {
        let mut n: u32 = 0;
        if self.text.bytes.len() > 0 {
            n += 1;
        }
        if self.data.bytes.len() > 0 {
            n += 1;
        }
        if self.bss.size > 0 {
            n += 1;
        }
        n
    }
}

/// An object under construction.
#[derive(Debug)]
pub struct Object {
    pub sections: Sections,
}

impl Object {
    /// An object with three empty sections.
    pub fn new() -> (r: Object)
        ensures
            r.sections.text.bytes@ == Seq::<u8>::empty(),
            r.sections.text.symbols@ == Seq::<Symbol>::empty(),
            r.sections.text.relocs@ == Seq::<Reloc>::empty(),
            r.sections.data.bytes@ == Seq::<u8>::empty(),
            r.sections.data.symbols@ == Seq::<Symbol>::empty(),
            r.sections.data.relocs@ == Seq::<Reloc>::empty(),
            r.sections.bss.size == 0,
            r.sections.bss.symbols@ == Seq::<Symbol>::empty(),
    {
        Object {
            sections: Sections {
                text: TextSection::new(),
                data: DataSection::new(),
                bss: BssSection::new(),
            },
        }
    }

    /// The object's sections.
    pub fn sections(&self) -> (r: &Sections)
        ensures
            r == &self.sections,
    {
        &self.sections
    }

    /// The values of all symbols, in section order: text, data, bss.
    pub open spec fn all_symbols(self) -> Seq<SymbolView> {
        sym_views(self.sections.text.symbols@) + sym_views(self.sections.data.symbols@)
            + sym_views(self.sections.bss.symbols@)
    }

    /// Sets the external bit of every symbol named `name`.
    pub fn set_global(&mut self, name: &str)
        ensures
            final(self).sections.text.bytes@ == old(self).sections.text.bytes@,
            final(self).sections.text.relocs@ == old(self).sections.text.relocs@,
            final(self).sections.data.bytes@ == old(self).sections.data.bytes@,
            final(self).sections.data.relocs@ == old(self).sections.data.relocs@,
            final(self).sections.bss.size == old(self).sections.bss.size,
            sym_views(final(self).sections.text.symbols@) == mark_global(
                sym_views(old(self).sections.text.symbols@),
                name@,
            ),
            sym_views(final(self).sections.data.symbols@) == mark_global(
                sym_views(old(self).sections.data.symbols@),
                name@,
            ),
            sym_views(final(self).sections.bss.symbols@) == mark_global(
                sym_views(old(self).sections.bss.symbols@),
                name@,
            ),
    {
        mark_global_in(&mut self.sections.text.symbols, name);
        mark_global_in(&mut self.sections.data.symbols, name);
        mark_global_in(&mut self.sections.bss.symbols, name);
    }
}

/// The symbols with the external bit set on every one named `name`.
pub open spec fn mark_global(symbols: Seq<SymbolView>, name: Seq<char>) -> Seq<SymbolView> {
    symbols.map_values(
        |sym: SymbolView|
            if sym.name() == name {
                sym.with_ext()
            } else {
                sym
            },
    )
}

/// Sets the external bit of every symbol of the list named `name`.
fn mark_global_in(symbols: &mut Vec<Symbol>, name: &str)
    ensures
        sym_views(final(symbols)@) == mark_global(sym_views(old(symbols)@), name@),
{
    let n = symbols.len();
    let mut i: usize = 0;
    while i < n
        invariant
            n == symbols@.len(),
            i <= n,
            symbols@.len() == old(symbols)@.len(),
            forall|k: int|
                0 <= k < i ==> #[trigger] symbols@[k]@ == (if old(symbols)@[k]@.name() == name@ {
                    old(symbols)@[k]@.with_ext()
                } else {
                    old(symbols)@[k]@
                }),
            forall|k: int| i <= k < n ==> symbols@[k] == old(symbols)@[k],
        decreases n - i,
    {
        let matches_name = {
            let sym_name = symbols[i].name();
            crate::endian::str_eq_chars(sym_name, name)
        };
        if matches_name {
            let updated = match &symbols[i] {
                Symbol::Undef { name } => Symbol::Undef { name: name.clone() },
                Symbol::Abs { name, val, ext: _ } => Symbol::Abs {
                    name: name.clone(),
                    val: *val,
                    ext: true,
                },
                Symbol::Ref { name, addr, ext: _ } => Symbol::Ref {
                    name: name.clone(),
                    addr: *addr,
                    ext: true,
                },
            };
            symbols.set(i, updated);
        }
        i += 1;
    }
    assert(sym_views(symbols@) =~= mark_global(sym_views(old(symbols)@), name@));
}

} // verus!
