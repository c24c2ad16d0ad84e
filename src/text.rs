//! Decimal digits and character runs, shared by the color keys and the chat grammar.

use vstd::prelude::*;

verus! {

pub open spec fn is_digit(c: char) -> bool {
    '0' <= c && c <= '9'
}

pub open spec fn digit_value(c: char) -> nat {
    (c as int - '0' as int) as nat
}

pub open spec fn digit_char(d: nat) -> char {
    (d + '0' as nat) as char
}

/// The number written by a run of decimal digits, most significant first.
pub open spec fn digits_value(s: Seq<char>) -> nat
    decreases s.len(),
{
    if s.len() == 0 {
        0
    } else {
        digits_value(s.drop_last()) * 10 + digit_value(s.last())
    }
}

/// The decimal text of `n`, without leading zeros (`"0"` for zero).
pub open spec fn decimal_chars(n: nat) -> Seq<char>
    decreases n,
{
    if n < 10 {
        seq![digit_char(n)]
    } else {
        decimal_chars(n / 10).push(digit_char(n % 10))
    }
}

/// The classes of characters that the grammars of this crate scan runs of.
#[derive(Clone, Copy, PartialEq, Eq, Structural, Debug)]
pub enum CharClass {
    Digit,
    NotSpace,
    Space,
    Lower,
}

pub open spec fn in_class(c: char, k: CharClass) -> bool {
    match k {
        CharClass::Digit => is_digit(c),
        CharClass::NotSpace => c != ' ',
        CharClass::Space => c == ' ',
        CharClass::Lower => 'a' <= c && c <= 'z',
    }
}

/// The end of the longest run of class `k` that starts at `i`.
pub open spec fn run_end(s: Seq<char>, i: int, k: CharClass) -> int
    decreases s.len() - i,
{
    if 0 <= i < s.len() && in_class(s[i], k) {
        run_end(s, i + 1, k)
    } else {
        i
    }
}

pub proof fn lemma_run_end_bounds(s: Seq<char>, i: int, k: CharClass)
    requires
        0 <= i <= s.len(),
    ensures
        i <= run_end(s, i, k) <= s.len(),
        forall|j: int| i <= j < run_end(s, i, k) ==> in_class(#[trigger] s[j], k),
        run_end(s, i, k) < s.len() ==> !in_class(s[run_end(s, i, k)], k),
    decreases s.len() - i,
{
    if i < s.len() && in_class(s[i], k) {
        lemma_run_end_bounds(s, i + 1, k);
    }
}

/// A run of class `k` laid after a prefix `p` ends where the run does, when
/// what follows it is outside the class or nothing follows.
pub proof fn lemma_run_end_concat(p: Seq<char>, a: Seq<char>, b: Seq<char>, i: int, k: CharClass)
    requires
        p.len() <= i <= p.len() + a.len(),
        forall|j: int| 0 <= j < a.len() ==> in_class(#[trigger] a[j], k),
        b.len() == 0 || !in_class(b[0], k),
    ensures
        run_end(p + a + b, i, k) == p.len() + a.len(),
    decreases p.len() + a.len() - i,
{
    let s = p + a + b;
    if i < p.len() + a.len() {
        assert(s[i] == a[i - p.len()]);
        lemma_run_end_concat(p, a, b, i + 1, k);
    } else if b.len() > 0 {
        assert(s[i] == b[0]);
    }
}

/// Three runs of digits separated by commas, starting at `i`: their values and
/// the position after the last one.
pub open spec fn triplet_at(s: Seq<char>, i: int) -> Option<(nat, nat, nat, int)> {
    let a = run_end(s, i, CharClass::Digit);
    let b = run_end(s, a + 1, CharClass::Digit);
    let c = run_end(s, b + 1, CharClass::Digit);
    if a > i && a < s.len() && s[a] == ',' && b > a + 1 && b < s.len() && s[b] == ',' && c > b
        + 1 {
        Some(
            (
                digits_value(s.subrange(i, a)),
                digits_value(s.subrange(a + 1, b)),
                digits_value(s.subrange(b + 1, c)),
                c,
            ),
        )
    } else {
        None
    }
}

pub proof fn lemma_digit_char(d: nat)
    requires
        d < 10,
    ensures
        is_digit(digit_char(d)),
        digit_value(digit_char(d)) == d,
{
}

/// Decimal text is a nonempty run of digits that reads back as the number.
pub proof fn lemma_decimal_chars(n: nat)
    ensures
        decimal_chars(n).len() >= 1,
        forall|j: int| 0 <= j < decimal_chars(n).len() ==> is_digit(#[trigger] decimal_chars(n)[j]),
        digits_value(decimal_chars(n)) == n,
    decreases n,
{
    if n < 10 {
        lemma_digit_char(n);
        assert(seq![digit_char(n)].drop_last() =~= Seq::<char>::empty());
        assert(decimal_chars(n).last() == digit_char(n));
        assert(digits_value(decimal_chars(n)) == digits_value(Seq::<char>::empty()) * 10 + digit_value(digit_char(n)));
    } else {
        lemma_decimal_chars(n / 10);
        lemma_digit_char(n % 10);
        let s = decimal_chars(n);
        assert(s.drop_last() =~= decimal_chars(n / 10));
        assert(s.last() == digit_char(n % 10));
        assert(n == (n / 10) * 10 + n % 10) by (nonlinear_arith);
        assert(digits_value(s) == digits_value(decimal_chars(n / 10)) * 10 + digit_value(digit_char(n % 10)));
        assert forall|j: int| 0 <= j < s.len() implies is_digit(#[trigger] s[j]) by {
            if j < s.len() - 1 {
                assert(s[j] == decimal_chars(n / 10)[j]);
            }
        }
    }
}

/// A longer run of digits never reads as a smaller number.
pub proof fn lemma_digits_value_grows(s: Seq<char>, i: int, j: int)
    requires
        0 <= i <= j <= s.len(),
    ensures
        digits_value(s.subrange(0, i)) <= digits_value(s.subrange(0, j)),
    decreases j - i,
{
    if i < j {
        lemma_digits_value_grows(s, i, j - 1);
        assert(s.subrange(0, j).drop_last() =~= s.subrange(0, j - 1));
    }
}

/// Relies on std's `ToString` for `u32` (its `Display`): the decimal digits of the
/// number, without sign or leading zeros.
#[verifier::external_body]
pub fn decimal_text(n: u32) -> (r: String)
    ensures
        r@ == decimal_chars(n as nat),
{
    n.to_string()
}

/// Scans from `start` to the end of the run of class `k`.
pub fn scan_run(s: &str, start: usize, k: CharClass) -> (r: usize)
    requires
        start <= s@.len(),
    ensures
        r == run_end(s@, start as int, k),
{
    let n = s.unicode_len();
    let mut i = start;
    while i < n
        invariant
            n == s@.len(),
            start <= i <= n,
            run_end(s@, start as int, k) == run_end(s@, i as int, k),
        decreases n - i,
    {
        let c = s.get_char(i);
        let hit = match k {
            CharClass::Digit => '0' <= c && c <= '9',
            CharClass::NotSpace => c != ' ',
            CharClass::Space => c == ' ',
            CharClass::Lower => 'a' <= c && c <= 'z',
        };
        if !hit {
            return i;
        }
        i = i + 1;
    }
    i
}

/// Reads the digits `s[from..to]` as a `u32`; `None` when the number does not fit.
pub fn read_u32(s: &str, from: usize, to: usize) -> (r: Option<u32>)
    requires
        from <= to <= s@.len(),
        forall|j: int| from <= j < to ==> is_digit(#[trigger] s@[j]),
    ensures
        match r {
            Some(v) => v as nat == digits_value(s@.subrange(from as int, to as int)),
            None => digits_value(s@.subrange(from as int, to as int)) > u32::MAX,
        },
{
    let ghost w = s@.subrange(from as int, to as int);
    let mut acc: u64 = 0;
    let mut i = from;
    while i < to
        invariant
            from <= i <= to <= s@.len(),
            w == s@.subrange(from as int, to as int),
            forall|j: int| from <= j < to ==> is_digit(#[trigger] s@[j]),
            acc as nat == digits_value(w.subrange(0, i - from)),
            acc <= u32::MAX,
        decreases to - i,
    {
        let c = s.get_char(i);
        let d = (c as u32 - '0' as u32) as u64;
        proof {
            assert(w[i - from] == s@[i as int]);
            assert(w.subrange(0, i - from + 1).drop_last() =~= w.subrange(0, i - from));
            assert(w.subrange(0, i - from + 1).last() == c);
        }
        acc = acc * 10 + d;
        if acc > u32::MAX as u64 {
            proof {
                lemma_digits_value_grows(w, i - from + 1, w.len() as int);
                assert(w.subrange(0, w.len() as int) =~= w);
            }
            return None;
        }
        i = i + 1;
    }
    proof {
        assert(w.subrange(0, i - from) =~= w);
    }
    Some(acc as u32)
}

/// Compares two texts character by character.
pub fn same_text(a: &str, b: &str) -> (r: bool)
    ensures
        r == (a@ == b@),
{
    let n = a.unicode_len();
    if n != b.unicode_len() {
        return false;
    }
    let mut i: usize = 0;
    while i < n
        invariant
            n == a@.len() == b@.len(),
            i <= n,
            forall|j: int| 0 <= j < i ==> a@[j] == b@[j],
        decreases n - i,
    {
        if a.get_char(i) != b.get_char(i) {
            return false;
        }
        i = i + 1;
    }
    assert(a@ =~= b@);
    true
}

/// Reads three comma-separated numbers starting at `start`: their values and the
/// position after them, or `None` where the text has no such triplet there or a
/// number does not fit in a `u32`.
pub fn read_triplet(s: &str, start: usize) -> (r: Option<(u32, u32, u32, usize)>)
    requires
        start <= s@.len(),
    ensures
        match triplet_at(s@, start as int) {
            Some(t) => if t.0 <= u32::MAX && t.1 <= u32::MAX && t.2 <= u32::MAX {
                r matches Some(v) && v.0 as nat == t.0 && v.1 as nat == t.1 && v.2 as nat == t.2
                    && v.3 as int == t.3
            } else {
                r is None
            },
            None => r is None,
        },
{
    let n = s.unicode_len();
    let a = scan_run(s, start, CharClass::Digit);
    proof {
        lemma_run_end_bounds(s@, start as int, CharClass::Digit);
    }
    if a == start || a >= n || s.get_char(a) != ',' {
        return None;
    }
    let b = scan_run(s, a + 1, CharClass::Digit);
    proof {
        lemma_run_end_bounds(s@, a + 1, CharClass::Digit);
    }
    if b == a + 1 || b >= n || s.get_char(b) != ',' {
        return None;
    }
    let c = scan_run(s, b + 1, CharClass::Digit);
    proof {
        lemma_run_end_bounds(s@, b + 1, CharClass::Digit);
    }
    if c == b + 1 {
        return None;
    }
    let x = read_u32(s, start, a);
    let y = read_u32(s, a + 1, b);
    let z = read_u32(s, b + 1, c);
    match (x, y, z) {
        (Some(x), Some(y), Some(z)) => Some((x, y, z, c)),
        _ => None,
    }
}

} // verus!
