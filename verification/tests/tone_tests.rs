use vietchar::catalog::row_chars;
use vietchar::mark::add_mark;
use vietchar::mark::strip_mark;
use vietchar::mark::Mark;
use vietchar::catalog::COL_COUNT;
use vietchar::catalog::ROW_COUNT;
use vietchar::tone::add_tone;
use vietchar::tone::find_tone;
use vietchar::tone::replace_tone;
use vietchar::tone::strip_tone;
use vietchar::tone::Tone;

const ALL_TONES: [Tone; 6] = [
    Tone::Ngang,
    Tone::Sac,
    Tone::Huyen,
    Tone::Hoi,
    Tone::Nga,
    Tone::Nang,
];

#[test]
fn find_tone_basic() {
    assert_eq!(find_tone('a'), Some(Tone::Ngang));
    assert_eq!(find_tone('\u{e1}'), Some(Tone::Sac));
    assert_eq!(find_tone('\u{e0}'), Some(Tone::Huyen));
    assert_eq!(find_tone('\u{1ea3}'), Some(Tone::Hoi));
    assert_eq!(find_tone('\u{e3}'), Some(Tone::Nga));
    assert_eq!(find_tone('\u{1ea1}'), Some(Tone::Nang));
}

#[test]
fn add_tone_basic() {
    assert_eq!(add_tone('a', Tone::Ngang), Some('a'));
    assert_eq!(add_tone('a', Tone::Sac), Some('\u{e1}'));
    assert_eq!(add_tone('a', Tone::Huyen), Some('\u{e0}'));
    assert_eq!(add_tone('a', Tone::Hoi), Some('\u{1ea3}'));
    assert_eq!(add_tone('a', Tone::Nga), Some('\u{e3}'));
    assert_eq!(add_tone('a', Tone::Nang), Some('\u{1ea1}'));
}

#[test]
fn strip_tone_basic() {
    assert_eq!(strip_tone('a'), Some('a'));
    assert_eq!(strip_tone('\u{e1}'), Some('a'));
    assert_eq!(strip_tone('\u{1ea5}'), Some('\u{e2}'));
    assert_eq!(strip_tone('\u{1eb1}'), Some('\u{103}'));
}

#[test]
fn uppercase_vowels_work() {
    assert_eq!(find_tone('A'), Some(Tone::Ngang));
    assert_eq!(find_tone('\u{c1}'), Some(Tone::Sac));
    assert_eq!(add_tone('A', Tone::Sac), Some('\u{c1}'));
    assert_eq!(add_tone('\u{ca}', Tone::Huyen), Some('\u{1ec0}'));
}

#[test]
fn non_vowel_characters_are_unchanged() {
    let chars = ['b', 'z', '1', ' ', '\n', '\u{1f600}', '\u{4f60}'];

    for c in chars {
        assert_eq!(find_tone(c), None);
        assert_eq!(add_tone(c, Tone::Sac), None);
        assert_eq!(add_tone(c, Tone::Huyen), None);
    }
}

#[test]
fn tone_round_trip_over_whole_catalog() {
    for i in 0..ROW_COUNT {
        let row = row_chars(i);
        for c in row {
            for t in ALL_TONES {
                let toned = add_tone(c, t).unwrap();
                assert_eq!(find_tone(toned), Some(t));
            }
        }
    }
}

#[test]
fn strip_tone_idempotent_over_whole_catalog() {
    for i in 0..ROW_COUNT {
        let row = row_chars(i);
        for c in row {
            let once = strip_tone(c).unwrap();
            assert_eq!(strip_tone(once), Some(once));
        }
    }
}

#[test]
fn catalog_characters_are_pairwise_distinct() {
    let mut all: Vec<char> = Vec::new();
    for i in 0..ROW_COUNT {
        for c in row_chars(i) {
            all.push(c);
        }
    }
    assert_eq!(all.len(), ROW_COUNT * COL_COUNT);
    for x in 0..all.len() {
        for y in (x + 1)..all.len() {
            assert_ne!(all[x], all[y]);
        }
    }
}

#[test]
fn tone_application_preserves_case() {
    assert_eq!(add_tone('a', Tone::Sac), Some('\u{e1}'));
    assert_eq!(add_tone('A', Tone::Sac), Some('\u{c1}'));
    assert_eq!(add_tone('\u{ea}', Tone::Nga), Some('\u{1ec5}'));
    assert_eq!(add_tone('\u{ca}', Tone::Nga), Some('\u{1ec4}'));
    // lowercase and uppercase rows line up column for column
    for i in 0..ROW_COUNT / 2 {
        let lower = row_chars(i);
        let upper = row_chars(i + ROW_COUNT / 2);
        for j in 0..COL_COUNT {
            assert_eq!(
                lower[j].to_uppercase().next(),
                Some(upper[j]),
            );
        }
    }
}

#[test]
fn replace_tone_matches_add_tone() {
    for i in 0..ROW_COUNT {
        let row = row_chars(i);
        for c in row {
            for t in ALL_TONES {
                assert_eq!(replace_tone(c, t), add_tone(c, t));
            }
        }
    }
    assert_eq!(replace_tone('b', Tone::Sac), None);
    assert_eq!(replace_tone('\u{e1}', Tone::Nang), Some('\u{1ea1}'));
}

#[test]
fn tone_indices_round_trip() {
    for (k, t) in ALL_TONES.into_iter().enumerate() {
        assert_eq!(t.idx(), k);
        assert_eq!(Tone::from_idx(k), t);
    }
}

#[test]
fn composition_pipeline() {
    // scenario walk: o -> horn -> nga tone, then back down
    let marked = add_mark('o', Mark::Moc).unwrap();
    assert_eq!(marked, '\u{1a1}');
    let toned = add_tone(marked, Tone::Nga).unwrap();
    assert_eq!(toned, '\u{1ee1}');
    let toneless = strip_tone(toned).unwrap();
    assert_eq!(toneless, '\u{1a1}');
    assert_eq!(strip_mark(toneless), Some('o'));

    // further fixed points of the pipeline
    assert_eq!(find_tone('\u{1ea5}'), Some(Tone::Sac));
    assert_eq!(add_tone('\u{ea}', Tone::Huyen), Some('\u{1ec1}'));
    assert_eq!(strip_tone('\u{1ea5}'), Some('\u{e2}'));
    assert_eq!(add_mark('a', Mark::Mu), Some('\u{e2}'));
    assert_eq!(add_mark('a', Mark::Gach), None);
    assert_eq!(strip_mark('\u{111}'), Some('d'));
    assert_eq!(strip_mark('a'), None);
}
