//! The mark engine: apply or strip a single structural mark on a bare
//! base letter.
//!
//! The mapping is intentionally a small explicit table: Vietnamese
//! orthography admits exactly seven (base letter, mark) pairs. The
//! table is lowercase-only and, unlike the tone catalog, does not
//! enumerate case variants; extending it is left open on purpose.

use vstd::prelude::*;

verus! {

/// A structural mark: a diacritic that changes which letter is
/// represented, orthogonal to tone.
#[derive(Clone, Copy, Debug, PartialEq, Eq, Structural)]
pub enum Mark {
    /// No structural mark.
    Khong,
    /// Circumflex: a, e, o.
    Mu,
    /// Breve: a.
    Trang,
    /// Horn: o, u.
    Moc,
    /// Stroke: d.
    Gach,
}

/// The marked character that the pair `(c, m)` composes to, or `None`
/// where Vietnamese orthography has no such pair. Exactly seven pairs
/// are defined, all lowercase.
pub open spec fn spec_add_mark(c: char, m: Mark) -> Option<char> {
    match m {
        Mark::Khong => None,
        Mark::Mu => if c == 'a' {
            Some('\u{e2}')
        } else if c == 'e' {
            Some('\u{ea}')
        } else if c == 'o' {
            Some('\u{f4}')
        } else {
            None
        },
        Mark::Trang => if c == 'a' {
            Some('\u{103}')
        } else {
            None
        },
        Mark::Moc => if c == 'o' {
            Some('\u{1a1}')
        } else if c == 'u' {
            Some('\u{1b0}')
        } else {
            None
        },
        Mark::Gach => if c == 'd' {
            Some('\u{111}')
        } else {
            None
        },
    }
}

/// The base letter that the marked character `c` decomposes to, or
/// `None` where `c` is not one of the seven lowercase marked
/// characters.
pub open spec fn spec_strip_mark(c: char) -> Option<char> {
    if c == '\u{e2}' || c == '\u{103}' {
        Some('a')
    } else if c == '\u{ea}' {
        Some('e')
    } else if c == '\u{f4}' || c == '\u{1a1}' {
        Some('o')
    } else if c == '\u{1b0}' {
        Some('u')
    } else if c == '\u{111}' {
        Some('d')
    } else {
        None
    }
}

/// Apply the structural mark `mark` to the base letter `c`.
///
/// Defined only for the seven pairs of Vietnamese orthography; every
/// other pair — `Mark::Khong` included, uppercase input included —
/// yields `None`.
pub fn add_mark(c: char, mark: Mark) -> (r: Option<char>)
    ensures
        r == spec_add_mark(c, mark),
{
    match (c, mark) {
        ('a', Mark::Mu) => Some('\u{e2}'),
        ('a', Mark::Trang) => Some('\u{103}'),
        ('e', Mark::Mu) => Some('\u{ea}'),
        ('o', Mark::Mu) => Some('\u{f4}'),
        ('o', Mark::Moc) => Some('\u{1a1}'),
        ('u', Mark::Moc) => Some('\u{1b0}'),
        ('d', Mark::Gach) => Some('\u{111}'),
        _ => None,
    }
}

/// Strip the structural mark from `c`, returning the bare base
/// letter.
///
/// Defined only for the seven lowercase marked characters; anything
/// else — plain base letters and uppercase marked letters included —
/// yields `None`.
pub fn strip_mark(c: char) -> (r: Option<char>)
    ensures
        r == spec_strip_mark(c),
{
    match c {
        '\u{e2}' | '\u{103}' => Some('a'),
        '\u{ea}' => Some('e'),
        '\u{f4}' | '\u{1a1}' => Some('o'),
        '\u{1b0}' => Some('u'),
        '\u{111}' => Some('d'),
        _ => None,
    }
}

/// Round trip: stripping the mark from any character that `add_mark`
/// composes yields the base letter that was marked.
pub proof fn lemma_mark_round_trip(c: char, m: Mark)
    requires
        spec_add_mark(c, m) is Some,
    ensures
        spec_strip_mark(spec_add_mark(c, m)->Some_0) == Some(c),
{
}

} // verus!
