//! The tone engine: apply, detect, or strip a tone on any nucleus of
//! the vowel catalog, lowercase or uppercase, unmarked or already
//! bearing a structural mark.
//!
//! Every operation is a lookup in the catalog's reverse index followed
//! by an indexing into the found row; a character absent from the
//! catalog is "not a tone-bearing vowel", reported as `None`.

use crate::catalog::cell;
use crate::catalog::col_of;
use crate::catalog::in_catalog;
use crate::catalog::lemma_position_of_cell;
use crate::catalog::lemma_position_sound;
use crate::catalog::locate;
use crate::catalog::position;
use crate::catalog::row_chars;
use crate::catalog::row_of;
use vstd::prelude::*;

verus! {

/// A tone: the pitch-contour diacritic layered on top of a nucleus.
/// `Ngang` is the level tone, index 0: a toneless nucleus with its
/// structural mark preserved.
#[derive(Clone, Copy, Debug, PartialEq, Eq, Structural)]
pub enum Tone {
    Ngang,
    Sac,
    Huyen,
    Hoi,
    Nga,
    Nang,
}

/// The stable integer index of each tone: the column its variants
/// occupy in every catalog row.
pub open spec fn tone_index(t: Tone) -> int {
    match t {
        Tone::Ngang => 0,
        Tone::Sac => 1,
        Tone::Huyen => 2,
        Tone::Hoi => 3,
        Tone::Nga => 4,
        Tone::Nang => 5,
    }
}

/// The tone whose stable index is `j`; indices outside 0 to 5 fall
/// back to the level tone.
pub open spec fn tone_of_index(j: int) -> Tone {
    if j == 1 {
        Tone::Sac
    } else if j == 2 {
        Tone::Huyen
    } else if j == 3 {
        Tone::Hoi
    } else if j == 4 {
        Tone::Nga
    } else if j == 5 {
        Tone::Nang
    } else {
        Tone::Ngang
    }
}

impl Tone {
    /// The tone's stable integer index, 0 to 5.
    pub fn idx(self) -> (r: usize)
        ensures
            r == tone_index(self),
    {
        match self {
            Tone::Ngang => 0,
            Tone::Sac => 1,
            Tone::Huyen => 2,
            Tone::Hoi => 3,
            Tone::Nga => 4,
            Tone::Nang => 5,
        }
    }

    /// The tone whose stable index is `idx`, for indices 0 to 5.
    pub fn from_idx(idx: usize) -> (r: Tone)
        requires
            idx < 6,
        ensures
            r == tone_of_index(idx as int),
    {
        if idx == 0 {
            Tone::Ngang
        } else if idx == 1 {
            Tone::Sac
        } else if idx == 2 {
            Tone::Huyen
        } else if idx == 3 {
            Tone::Hoi
        } else if idx == 4 {
            Tone::Nga
        } else {
            Tone::Nang
        }
    }
}

/// The character that `c` becomes under tone `t`: the entry at `t`'s
/// column of `c`'s row, whatever tone `c` itself carries; `None` for
/// a character outside the catalog.
pub open spec fn spec_add_tone(c: char, t: Tone) -> Option<char> {
    match position(c) {
        Some(p) => Some(cell(p.0, tone_index(t))),
        None => None,
    }
}

/// The tone that `c` carries: the tone of its column in the catalog;
/// `None` for a character outside the catalog.
pub open spec fn spec_find_tone(c: char) -> Option<Tone> {
    match position(c) {
        Some(p) => Some(tone_of_index(p.1)),
        None => None,
    }
}

/// The toneless form of `c`: the head of its row, structural mark
/// preserved; `None` for a character outside the catalog.
pub open spec fn spec_strip_tone(c: char) -> Option<char> {
    match position(c) {
        Some(p) => Some(cell(p.0, 0)),
        None => None,
    }
}

/// Apply tone `tone` to the nucleus `c`, replacing whatever tone `c`
/// already carries; case and structural mark are preserved because
/// the result comes from `c`'s own row.
pub fn add_tone(c: char, tone: Tone) -> (r: Option<char>)
    ensures
        r == spec_add_tone(c, tone),
{
    match locate(c) {
        Some((i, _)) => {
            let row = row_chars(i);
            Some(row[tone.idx()])
        },
        None => None,
    }
}

/// Detect which tone `c` carries.
pub fn find_tone(c: char) -> (r: Option<Tone>)
    ensures
        r == spec_find_tone(c),
{
    match locate(c) {
        Some((_, j)) => Some(Tone::from_idx(j)),
        None => None,
    }
}

/// Strip the tone from `c`, keeping its structural mark: the row's
/// toneless head.
pub fn strip_tone(c: char) -> (r: Option<char>)
    ensures
        r == spec_strip_tone(c),
        r == spec_add_tone(c, Tone::Ngang),
{
    match locate(c) {
        Some((i, _)) => {
            let row = row_chars(i);
            Some(row[0])
        },
        None => None,
    }
}

/// Behavioural twin of `add_tone`, kept for call sites that speak of
/// replacing a tone: the current tone of `c` never influences the
/// outcome beyond identifying the row.
pub fn replace_tone(c: char, tone: Tone) -> (r: Option<char>)
    ensures
        r == spec_add_tone(c, tone),
{
    add_tone(c, tone)
}

/// Round trip: applying any tone to a catalog character and then
/// detecting the tone of the result yields that same tone back.
pub proof fn lemma_tone_round_trip(c: char, t: Tone)
    requires
        in_catalog(c),
    ensures
        spec_add_tone(c, t) is Some,
        spec_find_tone(spec_add_tone(c, t)->Some_0) == Some(t),
{
    lemma_position_sound(c);
    lemma_position_of_cell(row_of(c), tone_index(t));
}

/// Idempotence: stripping the tone of a catalog character twice is
/// the same as stripping it once.
pub proof fn lemma_strip_tone_idempotent(c: char)
    requires
        in_catalog(c),
    ensures
        spec_strip_tone(c) is Some,
        spec_strip_tone(spec_strip_tone(c)->Some_0) == spec_strip_tone(c),
{
    lemma_position_sound(c);
    lemma_position_of_cell(row_of(c), 0);
}

/// A character outside the catalog is no tone-bearing vowel: every
/// tone operation reports it absent.
pub proof fn lemma_outside_catalog_absent(c: char, t: Tone)
    requires
        !in_catalog(c),
    ensures
        spec_find_tone(c) is None,
        spec_add_tone(c, t) is None,
        spec_strip_tone(c) is None,
{
}

/// Applying a tone never leaves the nucleus's row: the result sits in
/// the same row as the input. Rows never mix case, so tone
/// application never changes the case of its input.
pub proof fn lemma_add_tone_preserves_row(c: char, t: Tone)
    requires
        in_catalog(c),
    ensures
        spec_add_tone(c, t) is Some,
        in_catalog(spec_add_tone(c, t)->Some_0),
        row_of(spec_add_tone(c, t)->Some_0) == row_of(c),
{
    lemma_position_sound(c);
    lemma_position_of_cell(row_of(c), tone_index(t));
}

} // verus!
