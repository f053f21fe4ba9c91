//! The symbol table: a mapping from label name to a resolved offset.
//!
//! Names are unique by protocol, not by construction: the assembler driver
//! checks `has_symbol` before every `add_symbol`, and a duplicate insertion
//! is a driver-level error. Lookup therefore returns the first match.

use vstd::prelude::*;

use crate::text::str_eq;

verus! {

/// The kind of a symbol; labels are the only kind so far.
#[derive(Debug, PartialEq, Eq, Clone, Copy, Structural)]
pub enum SymbolType {
    Label,
}

/// One named symbol with its resolved offset.
#[derive(Debug)]
pub struct Symbol {
    name: String,
    offset: u32,
    symbol_type: SymbolType,
}

/// The mathematical model of a symbol.
pub struct SymbolModel {
    pub name: Seq<char>,
    pub offset: u32,
}

impl View for Symbol {
    type V = SymbolModel;

    closed spec fn view(&self) -> SymbolModel {
        SymbolModel { name: self.name@, offset: self.offset }
    }
}

impl Symbol {
    /// Builds a symbol from its parts.
    pub fn new(name: String, symbol_type: SymbolType, offset: u32) -> (r: Symbol)
        ensures
            r@.name == name@,
            r@.offset == offset,
    {
        Symbol { name, symbol_type, offset }
    }
}

/// The offset of the first symbol named `name` at or after position `i`.
pub open spec fn spec_lookup_from(syms: Seq<SymbolModel>, name: Seq<char>, i: int) -> Option<u32>
    decreases syms.len() - i,
{
    if 0 <= i < syms.len() {
        if syms[i].name == name {
            Some(syms[i].offset)
        } else {
            spec_lookup_from(syms, name, i + 1)
        }
    } else {
        None
    }
}

/// The offset bound to `name`: that of the first symbol carrying it.
pub open spec fn spec_lookup(syms: Seq<SymbolModel>, name: Seq<char>) -> Option<u32> {
    spec_lookup_from(syms, name, 0)
}

/// The table after the first symbol named `name` at or after position `i`
/// has its offset replaced.
pub open spec fn spec_set_offset_from(
    syms: Seq<SymbolModel>,
    name: Seq<char>,
    offset: u32,
    i: int,
) -> Seq<SymbolModel>
    decreases syms.len() - i,
{
    if 0 <= i < syms.len() {
        if syms[i].name == name {
            syms.update(i, SymbolModel { name: syms[i].name, offset })
        } else {
            spec_set_offset_from(syms, name, offset, i + 1)
        }
    } else {
        syms
    }
}

/// The table after the first symbol named `name` has its offset replaced;
/// a table without the name is unchanged.
pub open spec fn spec_set_offset(
    syms: Seq<SymbolModel>,
    name: Seq<char>,
    offset: u32,
) -> Seq<SymbolModel> {
    spec_set_offset_from(syms, name, offset, 0)
}

/// The mapping from label names to resolved offsets, in insertion order.
#[derive(Debug)]
pub struct SymbolTable {
    symbols: Vec<Symbol>,
}

impl View for SymbolTable {
    type V = Seq<SymbolModel>;

    closed spec fn view(&self) -> Seq<SymbolModel> {
        Seq::new(self.symbols@.len(), |i: int| self.symbols@[i]@)
    }
}

impl SymbolTable {
    /// An empty table.
    pub fn new() -> (r: SymbolTable)
        ensures
            r@ =~= Seq::<SymbolModel>::empty(),
    {
        SymbolTable { symbols: Vec::new() }
    }

    /// The number of symbols in the table.
    pub fn len(&self) -> (r: usize)
        ensures
            r == self@.len(),
    {
        self.symbols.len()
    }

    /// Appends a symbol. The caller is responsible for having checked that
    /// the name is not yet present.
    pub fn add_symbol(&mut self, s: Symbol)
        ensures
            final(self)@ =~= old(self)@.push(s@),
    {
        self.symbols.push(s);
    }

    /// The offset of the first symbol named `s`, if any.
    pub fn symbol_value(&self, s: &str) -> (r: Option<u32>)
        ensures
            r == spec_lookup(self@, s@),
    {
        let n = self.symbols.len();
        let mut i: usize = 0;
        while i < n
            invariant
                n == self.symbols@.len(),
                i <= n,
                spec_lookup(self@, s@) == spec_lookup_from(self@, s@, i as int),
            decreases n - i,
        {
            if str_eq(self.symbols[i].name.as_str(), s) {
                return Some(self.symbols[i].offset);
            }
            i = i + 1;
        }
        None
    }

    /// Whether a symbol named `s` is present.
    pub fn has_symbol(&self, s: &str) -> (r: bool)
        ensures
            r == (spec_lookup(self@, s@) is Some),
    {
        match self.symbol_value(s) {
            Some(_) => true,
            None => false,
        }
    }

    /// Replaces the offset of the first symbol named `s`, returning whether
    /// the name was present. This patches a label declared before its true
    /// offset was known.
    pub fn set_symbol_offset(&mut self, s: &str, offset: u32) -> (r: bool)
        ensures
            final(self)@ =~= spec_set_offset(old(self)@, s@, offset),
            r == (spec_lookup(old(self)@, s@) is Some),
    {
        let n = self.symbols.len();
        let mut i: usize = 0;
        while i < n
            invariant
                n == self.symbols@.len(),
                i <= n,
                *self == *old(self),
                spec_set_offset(old(self)@, s@, offset) == spec_set_offset_from(
                    old(self)@,
                    s@,
                    offset,
                    i as int,
                ),
                spec_lookup(old(self)@, s@) == spec_lookup_from(old(self)@, s@, i as int),
            decreases n - i,
        {
            if str_eq(self.symbols[i].name.as_str(), s) {
                self.symbols[i].offset = offset;
                proof {
                    assert(self@ =~= old(self)@.update(
                        i as int,
                        SymbolModel { name: old(self)@[i as int].name, offset },
                    ));
                }
                return true;
            }
            i = i + 1;
        }
        false
    }
}

} // verus!
