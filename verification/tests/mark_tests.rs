use vietchar::mark::add_mark;
use vietchar::mark::strip_mark;
use vietchar::mark::Mark;

#[test]
fn basic_add_mark() {
    assert_eq!(add_mark('a', Mark::Mu), Some('\u{e2}'));
    assert_eq!(add_mark('a', Mark::Trang), Some('\u{103}'));
    assert_eq!(add_mark('e', Mark::Mu), Some('\u{ea}'));
    assert_eq!(add_mark('o', Mark::Mu), Some('\u{f4}'));
    assert_eq!(add_mark('o', Mark::Moc), Some('\u{1a1}'));
    assert_eq!(add_mark('u', Mark::Moc), Some('\u{1b0}'));
    assert_eq!(add_mark('d', Mark::Gach), Some('\u{111}'));
}

#[test]
fn basic_strip_mark() {
    assert_eq!(strip_mark('\u{e2}'), Some('a'));
    assert_eq!(strip_mark('\u{103}'), Some('a'));
    assert_eq!(strip_mark('\u{ea}'), Some('e'));
    assert_eq!(strip_mark('\u{f4}'), Some('o'));
    assert_eq!(strip_mark('\u{1a1}'), Some('o'));
    assert_eq!(strip_mark('\u{1b0}'), Some('u'));
    assert_eq!(strip_mark('\u{111}'), Some('d'));
}

#[test]
fn undefined_pairs_are_absent() {
    assert_eq!(add_mark('a', Mark::Gach), None);
    assert_eq!(add_mark('a', Mark::Moc), None);
    assert_eq!(add_mark('e', Mark::Trang), None);
    assert_eq!(add_mark('d', Mark::Mu), None);
    assert_eq!(add_mark('i', Mark::Mu), None);
    // the no-mark value never composes anything
    assert_eq!(add_mark('a', Mark::Khong), None);
    // the table is lowercase-only
    assert_eq!(add_mark('A', Mark::Mu), None);
    assert_eq!(add_mark('O', Mark::Moc), None);
}

#[test]
fn strip_mark_rejects_unmarked() {
    // plain base letters carry no mark to strip
    assert_eq!(strip_mark('a'), None);
    assert_eq!(strip_mark('d'), None);
    assert_eq!(strip_mark('u'), None);
    // uppercase marked letters are outside the table
    assert_eq!(strip_mark('\u{c2}'), None);
    assert_eq!(strip_mark('\u{110}'), None);
    // arbitrary characters
    assert_eq!(strip_mark('z'), None);
    assert_eq!(strip_mark('1'), None);
}

#[test]
fn mark_round_trip() {
    let pairs = [
        ('a', Mark::Mu),
        ('a', Mark::Trang),
        ('e', Mark::Mu),
        ('o', Mark::Mu),
        ('o', Mark::Moc),
        ('u', Mark::Moc),
        ('d', Mark::Gach),
    ];
    for (base, mark) in pairs {
        let marked = add_mark(base, mark).unwrap();
        assert_eq!(strip_mark(marked), Some(base));
    }
}
