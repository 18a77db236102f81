//! The vowel catalog: the fixed table of Vietnamese tone rows, and its
//! reverse index.
//!
//! Each row holds the six precomposed characters of one nucleus (a vowel
//! letter, optionally already bearing a structural mark), ordered by tone
//! index; column 0 is the toneless form and serves as the row's key.
//! Lowercase nuclei fill rows 0 to 11; rows 12 to 23 repeat them in
//! uppercase, in the same order, so no row ever mixes case.
//!
//! Lookups rescan the table: with 144 entries a scan is cheap, and it
//! keeps every operation a pure function, free of any cached global
//! index.

use vstd::prelude::*;

verus! {

/// Number of rows in the catalog: twelve nuclei, each in two cases.
pub const ROW_COUNT: usize = 24;

/// Number of tonal variants in each row.
pub const COL_COUNT: usize = 6;

/// The catalog itself: the character standing in row `i` at tone column
/// `j`. Out-of-range coordinates fall through to the last branch; every
/// fact stated about the table restricts itself to `0 <= i < 24` and
/// `0 <= j < 6`.
pub open spec fn cell(i: int, j: int) -> char {
    if i == 0 {  // lowercase a
        if j == 0 { 'a' } else if j == 1 { '\u{e1}' } else if j == 2 { '\u{e0}' } else if j == 3 { '\u{1ea3}' } else if j == 4 { '\u{e3}' } else { '\u{1ea1}' }
    } else if i == 1 {  // lowercase a with breve
        if j == 0 { '\u{103}' } else if j == 1 { '\u{1eaf}' } else if j == 2 { '\u{1eb1}' } else if j == 3 { '\u{1eb3}' } else if j == 4 { '\u{1eb5}' } else { '\u{1eb7}' }
    } else if i == 2 {  // lowercase a with circumflex
        if j == 0 { '\u{e2}' } else if j == 1 { '\u{1ea5}' } else if j == 2 { '\u{1ea7}' } else if j == 3 { '\u{1ea9}' } else if j == 4 { '\u{1eab}' } else { '\u{1ead}' }
    } else if i == 3 {  // lowercase e
        if j == 0 { 'e' } else if j == 1 { '\u{e9}' } else if j == 2 { '\u{e8}' } else if j == 3 { '\u{1ebb}' } else if j == 4 { '\u{1ebd}' } else { '\u{1eb9}' }
    } else if i == 4 {  // lowercase e with circumflex
        if j == 0 { '\u{ea}' } else if j == 1 { '\u{1ebf}' } else if j == 2 { '\u{1ec1}' } else if j == 3 { '\u{1ec3}' } else if j == 4 { '\u{1ec5}' } else { '\u{1ec7}' }
    } else if i == 5 {  // lowercase i
        if j == 0 { 'i' } else if j == 1 { '\u{ed}' } else if j == 2 { '\u{ec}' } else if j == 3 { '\u{1ec9}' } else if j == 4 { '\u{129}' } else { '\u{1ecb}' }
    } else if i == 6 {  // lowercase o
        if j == 0 { 'o' } else if j == 1 { '\u{f3}' } else if j == 2 { '\u{f2}' } else if j == 3 { '\u{1ecf}' } else if j == 4 { '\u{f5}' } else { '\u{1ecd}' }
    } else if i == 7 {  // lowercase o with circumflex
        if j == 0 { '\u{f4}' } else if j == 1 { '\u{1ed1}' } else if j == 2 { '\u{1ed3}' } else if j == 3 { '\u{1ed5}' } else if j == 4 { '\u{1ed7}' } else { '\u{1ed9}' }
    } else if i == 8 {  // lowercase o with horn
        if j == 0 { '\u{1a1}' } else if j == 1 { '\u{1edb}' } else if j == 2 { '\u{1edd}' } else if j == 3 { '\u{1edf}' } else if j == 4 { '\u{1ee1}' } else { '\u{1ee3}' }
    } else if i == 9 {  // lowercase u
        if j == 0 { 'u' } else if j == 1 { '\u{fa}' } else if j == 2 { '\u{f9}' } else if j == 3 { '\u{1ee7}' } else if j == 4 { '\u{169}' } else { '\u{1ee5}' }
    } else if i == 10 {  // lowercase u with horn
        if j == 0 { '\u{1b0}' } else if j == 1 { '\u{1ee9}' } else if j == 2 { '\u{1eeb}' } else if j == 3 { '\u{1eed}' } else if j == 4 { '\u{1eef}' } else { '\u{1ef1}' }
    } else if i == 11 {  // lowercase y
        if j == 0 { 'y' } else if j == 1 { '\u{fd}' } else if j == 2 { '\u{1ef3}' } else if j == 3 { '\u{1ef7}' } else if j == 4 { '\u{1ef9}' } else { '\u{1ef5}' }
    } else if i == 12 {  // uppercase a
        if j == 0 { 'A' } else if j == 1 { '\u{c1}' } else if j == 2 { '\u{c0}' } else if j == 3 { '\u{1ea2}' } else if j == 4 { '\u{c3}' } else { '\u{1ea0}' }
    } else if i == 13 {  // uppercase a with breve
        if j == 0 { '\u{102}' } else if j == 1 { '\u{1eae}' } else if j == 2 { '\u{1eb0}' } else if j == 3 { '\u{1eb2}' } else if j == 4 { '\u{1eb4}' } else { '\u{1eb6}' }
    } else if i == 14 {  // uppercase a with circumflex
        if j == 0 { '\u{c2}' } else if j == 1 { '\u{1ea4}' } else if j == 2 { '\u{1ea6}' } else if j == 3 { '\u{1ea8}' } else if j == 4 { '\u{1eaa}' } else { '\u{1eac}' }
    } else if i == 15 {  // uppercase e
        if j == 0 { 'E' } else if j == 1 { '\u{c9}' } else if j == 2 { '\u{c8}' } else if j == 3 { '\u{1eba}' } else if j == 4 { '\u{1ebc}' } else { '\u{1eb8}' }
    } else if i == 16 {  // uppercase e with circumflex
        if j == 0 { '\u{ca}' } else if j == 1 { '\u{1ebe}' } else if j == 2 { '\u{1ec0}' } else if j == 3 { '\u{1ec2}' } else if j == 4 { '\u{1ec4}' } else { '\u{1ec6}' }
    } else if i == 17 {  // uppercase i
        if j == 0 { 'I' } else if j == 1 { '\u{cd}' } else if j == 2 { '\u{cc}' } else if j == 3 { '\u{1ec8}' } else if j == 4 { '\u{128}' } else { '\u{1eca}' }
    } else if i == 18 {  // uppercase o
        if j == 0 { 'O' } else if j == 1 { '\u{d3}' } else if j == 2 { '\u{d2}' } else if j == 3 { '\u{1ece}' } else if j == 4 { '\u{d5}' } else { '\u{1ecc}' }
    } else if i == 19 {  // uppercase o with circumflex
        if j == 0 { '\u{d4}' } else if j == 1 { '\u{1ed0}' } else if j == 2 { '\u{1ed2}' } else if j == 3 { '\u{1ed4}' } else if j == 4 { '\u{1ed6}' } else { '\u{1ed8}' }
    } else if i == 20 {  // uppercase o with horn
        if j == 0 { '\u{1a0}' } else if j == 1 { '\u{1eda}' } else if j == 2 { '\u{1edc}' } else if j == 3 { '\u{1ede}' } else if j == 4 { '\u{1ee0}' } else { '\u{1ee2}' }
    } else if i == 21 {  // uppercase u
        if j == 0 { 'U' } else if j == 1 { '\u{da}' } else if j == 2 { '\u{d9}' } else if j == 3 { '\u{1ee6}' } else if j == 4 { '\u{168}' } else { '\u{1ee4}' }
    } else if i == 22 {  // uppercase u with horn
        if j == 0 { '\u{1af}' } else if j == 1 { '\u{1ee8}' } else if j == 2 { '\u{1eea}' } else if j == 3 { '\u{1eec}' } else if j == 4 { '\u{1eee}' } else { '\u{1ef0}' }
    } else {  // uppercase y
        if j == 0 { 'Y' } else if j == 1 { '\u{dd}' } else if j == 2 { '\u{1ef2}' } else if j == 3 { '\u{1ef6}' } else if j == 4 { '\u{1ef8}' } else { '\u{1ef4}' }
    }
}

/// The reverse index: the coordinates at which `c` stands in the
/// catalog, or `None` for a character that appears in no row.
pub open spec fn position(c: char) -> Option<(int, int)> {
    if c == 'a' { Some((0, 0))
    } else if c == '\u{e1}' { Some((0, 1))
    } else if c == '\u{e0}' { Some((0, 2))
    } else if c == '\u{1ea3}' { Some((0, 3))
    } else if c == '\u{e3}' { Some((0, 4))
    } else if c == '\u{1ea1}' { Some((0, 5))
    } else if c == '\u{103}' { Some((1, 0))
    } else if c == '\u{1eaf}' { Some((1, 1))
    } else if c == '\u{1eb1}' { Some((1, 2))
    } else if c == '\u{1eb3}' { Some((1, 3))
    } else if c == '\u{1eb5}' { Some((1, 4))
    } else if c == '\u{1eb7}' { Some((1, 5))
    } else if c == '\u{e2}' { Some((2, 0))
    } else if c == '\u{1ea5}' { Some((2, 1))
    } else if c == '\u{1ea7}' { Some((2, 2))
    } else if c == '\u{1ea9}' { Some((2, 3))
    } else if c == '\u{1eab}' { Some((2, 4))
    } else if c == '\u{1ead}' { Some((2, 5))
    } else if c == 'e' { Some((3, 0))
    } else if c == '\u{e9}' { Some((3, 1))
    } else if c == '\u{e8}' { Some((3, 2))
    } else if c == '\u{1ebb}' { Some((3, 3))
    } else if c == '\u{1ebd}' { Some((3, 4))
    } else if c == '\u{1eb9}' { Some((3, 5))
    } else if c == '\u{ea}' { Some((4, 0))
    } else if c == '\u{1ebf}' { Some((4, 1))
    } else if c == '\u{1ec1}' { Some((4, 2))
    } else if c == '\u{1ec3}' { Some((4, 3))
    } else if c == '\u{1ec5}' { Some((4, 4))
    } else if c == '\u{1ec7}' { Some((4, 5))
    } else if c == 'i' { Some((5, 0))
    } else if c == '\u{ed}' { Some((5, 1))
    } else if c == '\u{ec}' { Some((5, 2))
    } else if c == '\u{1ec9}' { Some((5, 3))
    } else if c == '\u{129}' { Some((5, 4))
    } else if c == '\u{1ecb}' { Some((5, 5))
    } else if c == 'o' { Some((6, 0))
    } else if c == '\u{f3}' { Some((6, 1))
    } else if c == '\u{f2}' { Some((6, 2))
    } else if c == '\u{1ecf}' { Some((6, 3))
    } else if c == '\u{f5}' { Some((6, 4))
    } else if c == '\u{1ecd}' { Some((6, 5))
    } else if c == '\u{f4}' { Some((7, 0))
    } else if c == '\u{1ed1}' { Some((7, 1))
    } else if c == '\u{1ed3}' { Some((7, 2))
    } else if c == '\u{1ed5}' { Some((7, 3))
    } else if c == '\u{1ed7}' { Some((7, 4))
    } else if c == '\u{1ed9}' { Some((7, 5))
    } else if c == '\u{1a1}' { Some((8, 0))
    } else if c == '\u{1edb}' { Some((8, 1))
    } else if c == '\u{1edd}' { Some((8, 2))
    } else if c == '\u{1edf}' { Some((8, 3))
    } else if c == '\u{1ee1}' { Some((8, 4))
    } else if c == '\u{1ee3}' { Some((8, 5))
    } else if c == 'u' { Some((9, 0))
    } else if c == '\u{fa}' { Some((9, 1))
    } else if c == '\u{f9}' { Some((9, 2))
    } else if c == '\u{1ee7}' { Some((9, 3))
    } else if c == '\u{169}' { Some((9, 4))
    } else if c == '\u{1ee5}' { Some((9, 5))
    } else if c == '\u{1b0}' { Some((10, 0))
    } else if c == '\u{1ee9}' { Some((10, 1))
    } else if c == '\u{1eeb}' { Some((10, 2))
    } else if c == '\u{1eed}' { Some((10, 3))
    } else if c == '\u{1eef}' { Some((10, 4))
    } else if c == '\u{1ef1}' { Some((10, 5))
    } else if c == 'y' { Some((11, 0))
    } else if c == '\u{fd}' { Some((11, 1))
    } else if c == '\u{1ef3}' { Some((11, 2))
    } else if c == '\u{1ef7}' { Some((11, 3))
    } else if c == '\u{1ef9}' { Some((11, 4))
    } else if c == '\u{1ef5}' { Some((11, 5))
    } else if c == 'A' { Some((12, 0))
    } else if c == '\u{c1}' { Some((12, 1))
    } else if c == '\u{c0}' { Some((12, 2))
    } else if c == '\u{1ea2}' { Some((12, 3))
    } else if c == '\u{c3}' { Some((12, 4))
    } else if c == '\u{1ea0}' { Some((12, 5))
    } else if c == '\u{102}' { Some((13, 0))
    } else if c == '\u{1eae}' { Some((13, 1))
    } else if c == '\u{1eb0}' { Some((13, 2))
    } else if c == '\u{1eb2}' { Some((13, 3))
    } else if c == '\u{1eb4}' { Some((13, 4))
    } else if c == '\u{1eb6}' { Some((13, 5))
    } else if c == '\u{c2}' { Some((14, 0))
    } else if c == '\u{1ea4}' { Some((14, 1))
    } else if c == '\u{1ea6}' { Some((14, 2))
    } else if c == '\u{1ea8}' { Some((14, 3))
    } else if c == '\u{1eaa}' { Some((14, 4))
    } else if c == '\u{1eac}' { Some((14, 5))
    } else if c == 'E' { Some((15, 0))
    } else if c == '\u{c9}' { Some((15, 1))
    } else if c == '\u{c8}' { Some((15, 2))
    } else if c == '\u{1eba}' { Some((15, 3))
    } else if c == '\u{1ebc}' { Some((15, 4))
    } else if c == '\u{1eb8}' { Some((15, 5))
    } else if c == '\u{ca}' { Some((16, 0))
    } else if c == '\u{1ebe}' { Some((16, 1))
    } else if c == '\u{1ec0}' { Some((16, 2))
    } else if c == '\u{1ec2}' { Some((16, 3))
    } else if c == '\u{1ec4}' { Some((16, 4))
    } else if c == '\u{1ec6}' { Some((16, 5))
    } else if c == 'I' { Some((17, 0))
    } else if c == '\u{cd}' { Some((17, 1))
    } else if c == '\u{cc}' { Some((17, 2))
    } else if c == '\u{1ec8}' { Some((17, 3))
    } else if c == '\u{128}' { Some((17, 4))
    } else if c == '\u{1eca}' { Some((17, 5))
    } else if c == 'O' { Some((18, 0))
    } else if c == '\u{d3}' { Some((18, 1))
    } else if c == '\u{d2}' { Some((18, 2))
    } else if c == '\u{1ece}' { Some((18, 3))
    } else if c == '\u{d5}' { Some((18, 4))
    } else if c == '\u{1ecc}' { Some((18, 5))
    } else if c == '\u{d4}' { Some((19, 0))
    } else if c == '\u{1ed0}' { Some((19, 1))
    } else if c == '\u{1ed2}' { Some((19, 2))
    } else if c == '\u{1ed4}' { Some((19, 3))
    } else if c == '\u{1ed6}' { Some((19, 4))
    } else if c == '\u{1ed8}' { Some((19, 5))
    } else if c == '\u{1a0}' { Some((20, 0))
    } else if c == '\u{1eda}' { Some((20, 1))
    } else if c == '\u{1edc}' { Some((20, 2))
    } else if c == '\u{1ede}' { Some((20, 3))
    } else if c == '\u{1ee0}' { Some((20, 4))
    } else if c == '\u{1ee2}' { Some((20, 5))
    } else if c == 'U' { Some((21, 0))
    } else if c == '\u{da}' { Some((21, 1))
    } else if c == '\u{d9}' { Some((21, 2))
    } else if c == '\u{1ee6}' { Some((21, 3))
    } else if c == '\u{168}' { Some((21, 4))
    } else if c == '\u{1ee4}' { Some((21, 5))
    } else if c == '\u{1af}' { Some((22, 0))
    } else if c == '\u{1ee8}' { Some((22, 1))
    } else if c == '\u{1eea}' { Some((22, 2))
    } else if c == '\u{1eec}' { Some((22, 3))
    } else if c == '\u{1eee}' { Some((22, 4))
    } else if c == '\u{1ef0}' { Some((22, 5))
    } else if c == 'Y' { Some((23, 0))
    } else if c == '\u{dd}' { Some((23, 1))
    } else if c == '\u{1ef2}' { Some((23, 2))
    } else if c == '\u{1ef6}' { Some((23, 3))
    } else if c == '\u{1ef8}' { Some((23, 4))
    } else if c == '\u{1ef4}' { Some((23, 5))
    } else {
        None
    }
}

/// Whether `c` appears somewhere in the catalog.
pub open spec fn in_catalog(c: char) -> bool {
    position(c) is Some
}

/// The row in which a catalog character stands.
pub open spec fn row_of(c: char) -> int {
    position(c)->Some_0.0
}

/// The tone column in which a catalog character stands.
pub open spec fn col_of(c: char) -> int {
    position(c)->Some_0.1
}

/// The six characters of row `i`, ordered by tone column.
pub fn row_chars(i: usize) -> (r: [char; 6])
    requires
        i < ROW_COUNT,
    ensures
        forall|j: int| 0 <= j < COL_COUNT ==> r@[j] == cell(i as int, j),
{
    if i == 0 {  // lowercase a
        ['a', '\u{e1}', '\u{e0}', '\u{1ea3}', '\u{e3}', '\u{1ea1}']
    } else if i == 1 {  // lowercase a with breve
        ['\u{103}', '\u{1eaf}', '\u{1eb1}', '\u{1eb3}', '\u{1eb5}', '\u{1eb7}']
    } else if i == 2 {  // lowercase a with circumflex
        ['\u{e2}', '\u{1ea5}', '\u{1ea7}', '\u{1ea9}', '\u{1eab}', '\u{1ead}']
    } else if i == 3 {  // lowercase e
        ['e', '\u{e9}', '\u{e8}', '\u{1ebb}', '\u{1ebd}', '\u{1eb9}']
    } else if i == 4 {  // lowercase e with circumflex
        ['\u{ea}', '\u{1ebf}', '\u{1ec1}', '\u{1ec3}', '\u{1ec5}', '\u{1ec7}']
    } else if i == 5 {  // lowercase i
        ['i', '\u{ed}', '\u{ec}', '\u{1ec9}', '\u{129}', '\u{1ecb}']
    } else if i == 6 {  // lowercase o
        ['o', '\u{f3}', '\u{f2}', '\u{1ecf}', '\u{f5}', '\u{1ecd}']
    } else if i == 7 {  // lowercase o with circumflex
        ['\u{f4}', '\u{1ed1}', '\u{1ed3}', '\u{1ed5}', '\u{1ed7}', '\u{1ed9}']
    } else if i == 8 {  // lowercase o with horn
        ['\u{1a1}', '\u{1edb}', '\u{1edd}', '\u{1edf}', '\u{1ee1}', '\u{1ee3}']
    } else if i == 9 {  // lowercase u
        ['u', '\u{fa}', '\u{f9}', '\u{1ee7}', '\u{169}', '\u{1ee5}']
    } else if i == 10 {  // lowercase u with horn
        ['\u{1b0}', '\u{1ee9}', '\u{1eeb}', '\u{1eed}', '\u{1eef}', '\u{1ef1}']
    } else if i == 11 {  // lowercase y
        ['y', '\u{fd}', '\u{1ef3}', '\u{1ef7}', '\u{1ef9}', '\u{1ef5}']
    } else if i == 12 {  // uppercase a
        ['A', '\u{c1}', '\u{c0}', '\u{1ea2}', '\u{c3}', '\u{1ea0}']
    } else if i == 13 {  // uppercase a with breve
        ['\u{102}', '\u{1eae}', '\u{1eb0}', '\u{1eb2}', '\u{1eb4}', '\u{1eb6}']
    } else if i == 14 {  // uppercase a with circumflex
        ['\u{c2}', '\u{1ea4}', '\u{1ea6}', '\u{1ea8}', '\u{1eaa}', '\u{1eac}']
    } else if i == 15 {  // uppercase e
        ['E', '\u{c9}', '\u{c8}', '\u{1eba}', '\u{1ebc}', '\u{1eb8}']
    } else if i == 16 {  // uppercase e with circumflex
        ['\u{ca}', '\u{1ebe}', '\u{1ec0}', '\u{1ec2}', '\u{1ec4}', '\u{1ec6}']
    } else if i == 17 {  // uppercase i
        ['I', '\u{cd}', '\u{cc}', '\u{1ec8}', '\u{128}', '\u{1eca}']
    } else if i == 18 {  // uppercase o
        ['O', '\u{d3}', '\u{d2}', '\u{1ece}', '\u{d5}', '\u{1ecc}']
    } else if i == 19 {  // uppercase o with circumflex
        ['\u{d4}', '\u{1ed0}', '\u{1ed2}', '\u{1ed4}', '\u{1ed6}', '\u{1ed8}']
    } else if i == 20 {  // uppercase o with horn
        ['\u{1a0}', '\u{1eda}', '\u{1edc}', '\u{1ede}', '\u{1ee0}', '\u{1ee2}']
    } else if i == 21 {  // uppercase u
        ['U', '\u{da}', '\u{d9}', '\u{1ee6}', '\u{168}', '\u{1ee4}']
    } else if i == 22 {  // uppercase u with horn
        ['\u{1af}', '\u{1ee8}', '\u{1eea}', '\u{1eec}', '\u{1eee}', '\u{1ef0}']
    } else {  // uppercase y
        ['Y', '\u{dd}', '\u{1ef2}', '\u{1ef6}', '\u{1ef8}', '\u{1ef4}']
    }
}

/// The reverse index finds every table entry at that entry's own
/// coordinates: looking up `cell(i, j)` yields `(i, j)` back.
pub proof fn lemma_position_of_cell(i: int, j: int)
    requires
        0 <= i < ROW_COUNT,
        0 <= j < COL_COUNT,
    ensures
        position(cell(i, j)) == Some((i, j)),
{
}

/// The reverse index never invents an entry: whatever coordinates it
/// assigns to a character are in range, and the cell standing there
/// holds that very character.
pub proof fn lemma_position_sound(c: char)
    requires
        in_catalog(c),
    ensures
        0 <= row_of(c) < ROW_COUNT,
        0 <= col_of(c) < COL_COUNT,
        cell(row_of(c), col_of(c)) == c,
{
}

/// Within any single row, the six tonal variants are pairwise
/// distinct: the map from tone column to character is a bijection on
/// the row.
pub proof fn lemma_row_entries_distinct(i: int, j1: int, j2: int)
    requires
        0 <= i < ROW_COUNT,
        0 <= j1 < COL_COUNT,
        0 <= j2 < COL_COUNT,
        j1 != j2,
    ensures
        cell(i, j1) != cell(i, j2),
{
    lemma_position_of_cell(i, j1);
    lemma_position_of_cell(i, j2);
}

/// The catalog is partitioned: no character belongs to two different
/// rows, so the reverse lookup is never ambiguous.
pub proof fn lemma_rows_disjoint(i1: int, j1: int, i2: int, j2: int)
    requires
        0 <= i1 < ROW_COUNT,
        0 <= i2 < ROW_COUNT,
        0 <= j1 < COL_COUNT,
        0 <= j2 < COL_COUNT,
        i1 != i2,
    ensures
        cell(i1, j1) != cell(i2, j2),
{
    lemma_position_of_cell(i1, j1);
    lemma_position_of_cell(i2, j2);
}

/// Scan the catalog for `c` and return its coordinates, or `None` for
/// a character that stands in no row.
pub fn locate(c: char) -> (r: Option<(usize, usize)>)
    ensures
        match r {
            Some(p) => p.0 < ROW_COUNT && p.1 < COL_COUNT && position(c) == Some(
                (p.0 as int, p.1 as int),
            ),
            None => !in_catalog(c),
        },
{
    let mut i: usize = 0;
    while i < ROW_COUNT
        invariant
            i <= ROW_COUNT,
            forall|a: int, b: int| 0 <= a < i && 0 <= b < COL_COUNT ==> cell(a, b) != c,
        decreases ROW_COUNT - i,
    {
        let row = row_chars(i);
        let mut j: usize = 0;
        while j < COL_COUNT
            invariant
                i < ROW_COUNT,
                j <= COL_COUNT,
                forall|a: int, b: int| 0 <= a < i && 0 <= b < COL_COUNT ==> cell(a, b) != c,
                forall|b: int| 0 <= b < j ==> cell(i as int, b) != c,
                forall|b: int| 0 <= b < COL_COUNT ==> row@[b] == cell(i as int, b),
            decreases COL_COUNT - j,
        {
            if row[j] == c {
                proof {
                    lemma_position_of_cell(i as int, j as int);
                }
                return Some((i, j));
            }
            j += 1;
        }
        i += 1;
    }
    proof {
        if in_catalog(c) {
            lemma_position_sound(c);
            assert(cell(row_of(c), col_of(c)) != c);
        }
    }
    None
}

} // verus!
