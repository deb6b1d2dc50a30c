use term_session::text::{same_text, trim_ends, trim_leading, trim_trailing, white_space};

#[test]
fn white_space_is_the_unicode_property() {
    let mut code: u32 = 0;
    while code <= 0x10FFFF {
        if let Some(c) = char::from_u32(code) {
            assert_eq!(white_space(c), c.is_whitespace(), "U+{:04X}", code);
        }
        code += 1;
    }
}

#[test]
fn white_space_on_chosen_characters() {
    assert!(white_space(' '));
    assert!(white_space('\n'));
    assert!(white_space('\t'));
    assert!(white_space('\r'));
    assert!(white_space('\u{A0}'));
    assert!(white_space('\u{3000}'));
    assert!(!white_space('a'));
    assert!(!white_space('\u{200B}'));
    assert!(!white_space('\u{8}'));
    assert!(!white_space('\u{1b}'));
}

#[test]
fn trim_trailing_removes_white_space_at_the_end_only() {
    assert_eq!(trim_trailing("back\n"), "back");
    assert_eq!(trim_trailing("  back \t\r\n"), "  back");
    assert_eq!(trim_trailing("a b"), "a b");
    assert_eq!(trim_trailing(" \n "), "");
    assert_eq!(trim_trailing(""), "");
    assert_eq!(trim_trailing("größe\u{3000}"), "größe");
}

#[test]
fn trim_trailing_agrees_with_std() {
    let samples = ["", " ", "x", "x ", " x", "a\nb\n\n", "λ \u{2003}\u{85}", "\u{1680}z\u{1680}"];
    for s in samples {
        assert_eq!(trim_trailing(s), s.trim_end());
    }
}

#[test]
fn same_text_compares_characters() {
    assert!(same_text("", ""));
    assert!(same_text("back", "back"));
    assert!(same_text("λx", "λx"));
    assert!(!same_text("back", "bacK"));
    assert!(!same_text("back", "back "));
    assert!(!same_text("", "a"));
    assert!(!same_text("ab", "ba"));
}

#[test]
fn trim_leading_removes_white_space_at_the_start_only() {
    assert_eq!(trim_leading(" back"), "back");
    assert_eq!(trim_leading("\t\r\n  back \n"), "back \n");
    assert_eq!(trim_leading("a b"), "a b");
    assert_eq!(trim_leading(" \n "), "");
    assert_eq!(trim_leading(""), "");
    assert_eq!(trim_leading("\u{3000}größe"), "größe");
}

#[test]
fn trim_leading_agrees_with_std() {
    let samples = ["", " ", "x", "x ", " x", "\n\na\nb", "\u{2003}\u{85} λ", "\u{1680}z\u{1680}"];
    for s in samples {
        assert_eq!(trim_leading(s), s.trim_start());
    }
}

#[test]
fn trim_ends_removes_white_space_at_both_ends() {
    assert_eq!(trim_ends(" back "), "back");
    assert_eq!(trim_ends("back\n"), "back");
    assert_eq!(trim_ends("\t go  back \r\n"), "go  back");
    assert_eq!(trim_ends(" \n "), "");
    assert_eq!(trim_ends(""), "");
}

#[test]
fn trim_ends_agrees_with_std() {
    let samples = ["", " ", "x", "x ", " x", " x ", "a\nb\n\n", "\u{2003}λ \u{85}", "\u{1680}z\u{1680}"];
    for s in samples {
        assert_eq!(trim_ends(s), s.trim());
    }
}
