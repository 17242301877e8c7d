use concourse_github_issue::text::{decimal_text, eq_ignore_case, join, to_lower_char};

#[test]
fn lower_char_changes_ascii_capitals_only() {
    assert_eq!(to_lower_char('A'), 'a');
    assert_eq!(to_lower_char('Z'), 'z');
    assert_eq!(to_lower_char('M'), 'm');
    assert_eq!(to_lower_char('a'), 'a');
    assert_eq!(to_lower_char('z'), 'z');
    assert_eq!(to_lower_char('@'), '@');
    assert_eq!(to_lower_char('['), '[');
    assert_eq!(to_lower_char('0'), '0');
    assert_eq!(to_lower_char('\u{c9}'), '\u{c9}');
    for c in ['A', 'q', 'Z', '_', '\u{e9}', '\u{212a}'] {
        assert_eq!(to_lower_char(c), c.to_ascii_lowercase());
    }
}

#[test]
fn eq_ignore_case_agrees_with_the_standard_comparison() {
    let words = ["", "open", "OPEN", "oPeN", "opem", "ope", "opened", "\u{f6}pen", "\u{d6}pen"];
    for a in words {
        for b in words {
            assert_eq!(eq_ignore_case(a, b), a.eq_ignore_ascii_case(b), "{a:?} and {b:?}");
        }
    }
}

#[test]
fn decimal_text_agrees_with_the_standard_rendering() {
    for n in [0u64, 1, 9, 10, 11, 99, 100, 101, 12345, 4294967296, u64::MAX - 1, u64::MAX] {
        assert_eq!(decimal_text(n), n.to_string());
    }
    assert_eq!(decimal_text(0), "0");
    assert_eq!(decimal_text(1907), "1907");
}

#[test]
fn join_puts_the_tail_behind_the_head() {
    assert_eq!(join("dir", "/issue_number.txt"), "dir/issue_number.txt");
    assert_eq!(join("", "x"), "x");
    assert_eq!(join("x", ""), "x");
}
