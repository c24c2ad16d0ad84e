//! The table from color keys to block identifiers.

use vstd::prelude::*;

verus! {

/// One line of the palette: the block that a color key stands for.
#[derive(Clone, Debug)]
pub struct PaletteEntry {
    pub color: String,
    pub block: String,
}

/// The palette, in the order its entries were read. Where a key occurs more than
/// once, the last entry counts.
#[derive(Clone, Debug)]
pub struct PaletteMap {
    pub entries: Vec<PaletteEntry>,
}

pub open spec fn entry_view(e: PaletteEntry) -> (Seq<char>, Seq<char>) {
    (e.color@, e.block@)
}

impl View for PaletteMap {
    type V = Seq<(Seq<char>, Seq<char>)>;

    open spec fn view(&self) -> Seq<(Seq<char>, Seq<char>)> {
        self.entries@.map_values(|e: PaletteEntry| entry_view(e))
    }
}

/// The block of the last entry whose key is `key`.
pub open spec fn palette_lookup(es: Seq<(Seq<char>, Seq<char>)>, key: Seq<char>) -> Option<
    Seq<char>,
>
    decreases es.len(),
{
    if es.len() == 0 {
        None
    } else if es.last().0 == key {
        Some(es.last().1)
    } else {
        palette_lookup(es.drop_last(), key)
    }
}

impl PaletteMap {
    /// The palette made of these entries, in their order.
    pub fn from_entries(entries: Vec<PaletteEntry>) -> (r: PaletteMap)
        ensures
            r@ == entries@.map_values(|e: PaletteEntry| entry_view(e)),
    {
        PaletteMap { entries }
    }

    /// The block that `color` stands for, if any entry has that key.
    pub fn lookup(&self, color: &String) -> (r: Option<String>)
        ensures
            match palette_lookup(self@, color@) {
                Some(b) => r matches Some(s) && s@ == b,
                None => r is None,
            },
    {
        let mut i = self.entries.len();
        assert(self@.subrange(0, i as int) =~= self@);
        while i > 0
            invariant
                i <= self.entries.len(),
                palette_lookup(self@, color@) == palette_lookup(self@.subrange(0, i as int), color@),
            decreases i,
        {
            let ghost pre = self@.subrange(0, i as int);
            assert(pre.drop_last() =~= self@.subrange(0, i - 1));
            assert(pre.last() == entry_view(self.entries@[i - 1]));
            if self.entries[i - 1].color == *color {
                return Some(self.entries[i - 1].block.clone());
            }
            i = i - 1;
        }
        None
    }
}

} // verus!
