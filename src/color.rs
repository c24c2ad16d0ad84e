//! Colors of the scene's color table and their canonical `"R,G,B"` keys.

use vstd::prelude::*;
use crate::text::{
    decimal_chars, decimal_text, lemma_decimal_chars, lemma_run_end_concat, read_triplet,
    triplet_at, CharClass,
};

verus! {

/// A packed color holds blue in its low byte, then green, then red; the high
/// byte (alpha) is not used.
pub open spec fn red_of(c: u32) -> nat {
    ((c as nat) / 65536) % 256
}

pub open spec fn green_of(c: u32) -> nat {
    ((c as nat) / 256) % 256
}

pub open spec fn blue_of(c: u32) -> nat {
    (c as nat) % 256
}

/// The canonical key of a color: decimal channels joined by commas.
pub open spec fn key_chars(r: nat, g: nat, b: nat) -> Seq<char> {
    decimal_chars(r) + seq![','] + decimal_chars(g) + seq![','] + decimal_chars(b)
}

/// The channels that a key spells, when it is exactly three channel values.
pub open spec fn key_rgb(s: Seq<char>) -> Option<(nat, nat, nat)> {
    match triplet_at(s, 0) {
        Some(t) => if t.3 == s.len() && t.0 <= 255 && t.1 <= 255 && t.2 <= 255 {
            Some((t.0, t.1, t.2))
        } else {
            None
        },
        None => None,
    }
}

/// Splits a packed color into its red, green and blue channels.
pub fn rgb_of(c: u32) -> (r: (u8, u8, u8))
    ensures
        r.0 as nat == red_of(c),
        r.1 as nat == green_of(c),
        r.2 as nat == blue_of(c),
{
    assert((c >> 16u32) & 0xffu32 == (c / 65536) % 256) by (bit_vector);
    assert((c >> 8u32) & 0xffu32 == (c / 256) % 256) by (bit_vector);
    assert(c & 0xffu32 == c % 256) by (bit_vector);
    (((c >> 16u32) & 0xffu32) as u8, ((c >> 8u32) & 0xffu32) as u8, (c & 0xffu32) as u8)
}

/// The canonical key of three channel values.
pub fn color_key(r: u8, g: u8, b: u8) -> (k: String)
    ensures
        k@ == key_chars(r as nat, g as nat, b as nat),
{
    let comma = ",";
    proof {
        reveal_strlit(",");
    }
    let mut k = decimal_text(r as u32);
    k.append(comma);
    let gt = decimal_text(g as u32);
    k.append(gt.as_str());
    k.append(comma);
    let bt = decimal_text(b as u32);
    k.append(bt.as_str());
    assert(k@ =~= key_chars(r as nat, g as nat, b as nat));
    k
}

/// The canonical key of a packed color of the scene's color table.
pub fn color_key_of(c: u32) -> (k: String)
    ensures
        k@ == key_chars(red_of(c), green_of(c), blue_of(c)),
{
    let (r, g, b) = rgb_of(c);
    color_key(r, g, b)
}

/// Reads a key back into its channels; `None` for text that is not a key.
pub fn parse_color_key(s: &str) -> (r: Option<(u8, u8, u8)>)
    ensures
        match key_rgb(s@) {
            Some(t) => r == Some((t.0 as u8, t.1 as u8, t.2 as u8)),
            None => r is None,
        },
{
    match read_triplet(s, 0) {
        Some((x, y, z, e)) => {
            if e == s.unicode_len() && x <= 255 && y <= 255 && z <= 255 {
                Some((x as u8, y as u8, z as u8))
            } else {
                None
            }
        },
        None => None,
    }
}

/// Reading the key of any three channel values gives those values back.
pub proof fn lemma_color_key_round_trip(r: u8, g: u8, b: u8)
    ensures
        key_rgb(key_chars(r as nat, g as nat, b as nat)) == Some((r as nat, g as nat, b as nat)),
{
    let dr = decimal_chars(r as nat);
    let dg = decimal_chars(g as nat);
    let db = decimal_chars(b as nat);
    let c = seq![','];
    let s = key_chars(r as nat, g as nat, b as nat);
    lemma_decimal_chars(r as nat);
    lemma_decimal_chars(g as nat);
    lemma_decimal_chars(b as nat);
    let e: Seq<char> = Seq::empty();
    let pa = e;
    let pb = dr + c;
    let pc = dr + c + dg + c;
    assert(s =~= pa + dr + (c + dg + c + db));
    lemma_run_end_concat(pa, dr, c + dg + c + db, 0, CharClass::Digit);
    assert(s =~= pb + dg + (c + db));
    lemma_run_end_concat(pb, dg, c + db, pb.len() as int, CharClass::Digit);
    assert(s =~= pc + db + e);
    lemma_run_end_concat(pc, db, e, pc.len() as int, CharClass::Digit);
    let a = dr.len() as int;
    let bb = (pb.len() + dg.len()) as int;
    assert(s[a] == ',');
    assert(s[bb] == ',');
    assert(s.subrange(0, a) =~= dr);
    assert(s.subrange(a + 1, bb) =~= dg);
    assert(s.subrange(bb + 1, s.len() as int) =~= db);
}

} // verus!
