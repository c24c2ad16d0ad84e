//! The chat grammar of a build directive: `build <name> <x>,<y>,<z>[ <direction>]`.

use vstd::prelude::*;
use crate::text::{lemma_run_end_bounds, read_triplet, run_end, scan_run, triplet_at, CharClass};
use crate::transform::{Direction, Location};

verus! {

/// A build directive taken from a chat message.
#[derive(Clone, Debug)]
pub struct BuildRequest {
    pub name: String,
    pub base: Location,
    pub direction: Direction,
}

pub open spec fn has_build_prefix(s: Seq<char>) -> bool {
    &&& s.len() >= 6
    &&& s[0] == 'b'
    &&& s[1] == 'u'
    &&& s[2] == 'i'
    &&& s[3] == 'l'
    &&& s[4] == 'd'
    &&& s[5] == ' '
}

/// `w`, `e` and `s` name their directions; any other token, the empty one
/// included, means north.
pub open spec fn direction_of_token(t: Seq<char>) -> Direction {
    if t == seq!['w'] {
        Direction::West
    } else if t == seq!['e'] {
        Direction::East
    } else if t == seq!['s'] {
        Direction::South
    } else {
        Direction::North
    }
}

/// What a message says when it opens with a build directive: the name (a run of
/// characters other than space), the three numbers of the base, and the
/// direction, read from the lowercase letters after the spaces that follow the
/// numbers. Anything after that is not read.
pub open spec fn trigger_spec(s: Seq<char>) -> Option<(Seq<char>, nat, nat, nat, Direction)> {
    if !has_build_prefix(s) {
        None
    } else {
        let n = run_end(s, 6, CharClass::NotSpace);
        if n > 6 && n < s.len() && s[n] == ' ' {
            match triplet_at(s, n + 1) {
                Some(t) => {
                    let sp = run_end(s, t.3, CharClass::Space);
                    let le = run_end(s, sp, CharClass::Lower);
                    Some((s.subrange(6, n), t.0, t.1, t.2, direction_of_token(s.subrange(sp, le))))
                },
                None => None,
            }
        } else {
            None
        }
    }
}

/// `r` is what a message spells as a build directive: the directive where the
/// message holds one whose coordinates fit in a `u32`, and nothing otherwise.
pub open spec fn trigger_agrees(r: Option<BuildRequest>, s: Seq<char>) -> bool {
    match trigger_spec(s) {
        Some(t) => if t.1 <= u32::MAX && t.2 <= u32::MAX && t.3 <= u32::MAX {
            r matches Some(q) && q.name@ == t.0 && q.base.x as nat == t.1 && q.base.y as nat == t.2
                && q.base.z as nat == t.3 && q.direction == t.4
        } else {
            r is None
        },
        None => r is None,
    }
}

/// The build directive of a chat message, if it holds one whose coordinates fit
/// in a `u32`; any other message is no directive, and no error.
pub fn parse_trigger(text: &str) -> (r: Option<BuildRequest>)
    ensures
        trigger_agrees(r, text@),
{
    let len = text.unicode_len();
    if len < 6 || text.get_char(0) != 'b' || text.get_char(1) != 'u' || text.get_char(2) != 'i'
        || text.get_char(3) != 'l' || text.get_char(4) != 'd' || text.get_char(5) != ' ' {
        return None;
    }
    let n = scan_run(text, 6, CharClass::NotSpace);
    proof {
        lemma_run_end_bounds(text@, 6, CharClass::NotSpace);
    }
    if n == 6 || n >= len || text.get_char(n) != ' ' {
        return None;
    }
    let (x, y, z, e) = match read_triplet(text, n + 1) {
        Some(t) => t,
        None => {
            return None;
        },
    };
    proof {
        lemma_run_end_bounds(text@, n + 1, CharClass::Digit);
        let a = run_end(text@, n + 1, CharClass::Digit);
        lemma_run_end_bounds(text@, a + 1, CharClass::Digit);
        let b = run_end(text@, a + 1, CharClass::Digit);
        lemma_run_end_bounds(text@, b + 1, CharClass::Digit);
    }
    let sp = scan_run(text, e, CharClass::Space);
    proof {
        lemma_run_end_bounds(text@, e as int, CharClass::Space);
    }
    let le = scan_run(text, sp, CharClass::Lower);
    proof {
        lemma_run_end_bounds(text@, sp as int, CharClass::Lower);
    }
    let direction = if le > sp && le - sp == 1 {
        let c = text.get_char(sp);
        proof {
            assert(text@.subrange(sp as int, le as int) =~= seq![c]);
            assert(seq![c][0] == c);
            assert(seq!['w'][0] == 'w');
            assert(seq!['e'][0] == 'e');
            assert(seq!['s'][0] == 's');
        }
        if c == 'w' {
            Direction::West
        } else if c == 'e' {
            Direction::East
        } else if c == 's' {
            Direction::South
        } else {
            Direction::North
        }
    } else {
        proof {
            assert(text@.subrange(sp as int, le as int).len() != 1);
        }
        Direction::North
    };
    let name = String::from_str(text.substring_char(6, n));
    Some(BuildRequest { name, base: Location { x, y, z }, direction })
}

} // verus!
