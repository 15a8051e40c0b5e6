use tgs_readline::text;

#[test]
fn split_keeps_empty_pieces() {
    assert_eq!(text::split("git  add ", ' '), vec!["git", "", "add", ""]);
    assert_eq!(text::split("", ' '), vec![""]);
    assert_eq!(text::split("one", ' '), vec!["one"]);
}

#[test]
fn split_pieces_join_to_the_text() {
    let s = " a\u{e9} b  c";
    assert_eq!(text::split(s, ' ').join(" "), s);
}

#[test]
fn last_piece_is_behind_the_last_separator() {
    assert_eq!(text::last_piece("a\nbc\nde", '\n'), "de");
    assert_eq!(text::last_piece("a\n", '\n'), "");
    assert_eq!(text::last_piece("abc", '\n'), "abc");
}

#[test]
fn first_chars_counts_characters() {
    assert_eq!(text::first_chars("\u{e9}t\u{e9}", 2), "\u{e9}t");
    assert_eq!(text::first_chars("abc", 0), "");
    assert_eq!(text::first_chars("abc", 3), "abc");
    assert_eq!(text::first_chars("abc", 9), "abc");
}

#[test]
fn bytes_are_those_of_utf8() {
    assert_eq!(text::bytes("abc"), 3);
    assert_eq!(text::bytes("\u{e9}"), 2);
    assert_eq!(text::bytes(""), 0);
}

#[test]
fn texts_are_cut_between_characters() {
    assert!(text::can_split_at("\u{e9}a", 2));
    assert!(!text::can_split_at("\u{e9}a", 1));
    assert!(text::can_split_at("\u{e9}a", 3));
    assert!(!text::can_split_at("\u{e9}a", 4));
    assert_eq!(text::after_bytes("\u{e9}abc", 2), "abc");
    assert_eq!(text::after_bytes("abc", 0), "abc");
    assert_eq!(text::after_bytes("abc", 3), "");
}

#[test]
fn concat_puts_one_behind_the_other() {
    assert_eq!(text::concat("ls ", "-l"), "ls -l");
}
