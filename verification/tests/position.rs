use llm_lsp::text::char_index_of;
use llm_lsp::text::char_is_whitespace;
use llm_lsp::text::char_units;
use llm_lsp::text::offset_of;
use llm_lsp::text::splice;
use llm_lsp::text::str_eq;
use llm_lsp::text::trim;
use llm_lsp::text::trim_end;
use llm_lsp::text::trim_start;

#[test]
fn offset_inside_first_line() {
    assert_eq!(offset_of("ab\ncde\nf", 0, 1), 1);
}

#[test]
fn offset_at_start_of_second_line() {
    assert_eq!(offset_of("ab\ncde\nf", 1, 0), 3);
}

#[test]
fn offset_at_end_of_last_line() {
    assert_eq!(offset_of("ab\ncde\nf", 2, 1), 8);
}

#[test]
fn offset_counts_one_unit_per_line_break() {
    assert_eq!(offset_of("ab\ncde\nf", 2, 0), 7);
    assert_eq!(offset_of("fn main() {\n  \n}", 1, 2), 14);
}

#[test]
fn offset_of_line_past_the_end_is_end_of_text() {
    assert_eq!(offset_of("ab\ncde\nf", 3, 0), 8);
    assert_eq!(offset_of("ab\ncde\nf", 3, 7), 8);
    assert_eq!(offset_of("ab\ncde\nf", u32::MAX, u32::MAX), 8);
}

#[test]
fn offset_of_column_past_the_end_is_end_of_line() {
    assert_eq!(offset_of("ab\ncde\nf", 0, 2), 2);
    assert_eq!(offset_of("ab\ncde\nf", 0, 3), 2);
    assert_eq!(offset_of("ab\ncde\nf", 1, 99), 6);
    assert_eq!(offset_of("ab\ncde\nf", 2, u32::MAX), 8);
}

#[test]
fn offset_in_empty_text_is_zero() {
    assert_eq!(offset_of("", 0, 0), 0);
    assert_eq!(offset_of("", 0, 5), 0);
    assert_eq!(offset_of("", 4, 0), 0);
}

#[test]
fn text_that_ends_in_a_line_break_has_an_empty_last_line() {
    assert_eq!(offset_of("a\n", 1, 0), 2);
    assert_eq!(offset_of("a\n", 1, 3), 2);
    assert_eq!(offset_of("a\n", 2, 0), 2);
    assert_eq!(offset_of("\n\n", 1, 0), 1);
    assert_eq!(offset_of("\n\n", 2, 0), 2);
}

#[test]
fn carriage_return_belongs_to_its_line() {
    assert_eq!(offset_of("a\r\nb", 0, 2), 2);
    assert_eq!(offset_of("a\r\nb", 1, 0), 3);
    assert_eq!(offset_of("a\rb", 1, 0), 3);
}

#[test]
fn offset_counts_utf16_code_units() {
    // U+00E9 takes one unit, U+1F600 takes two.
    assert_eq!(char_units('a'), 1);
    assert_eq!(char_units('\u{e9}'), 1);
    assert_eq!(char_units('\u{ffff}'), 1);
    assert_eq!(char_units('\u{10000}'), 2);
    assert_eq!(char_units('\u{1f600}'), 2);
    assert_eq!(offset_of("\u{e9}\u{1f600}x\ny", 0, 99), 4);
    assert_eq!(offset_of("\u{e9}\u{1f600}x\ny", 1, 0), 5);
    assert_eq!(offset_of("\u{e9}\u{1f600}x\ny", 1, 1), 6);
    assert_eq!(offset_of("\u{e9}\u{1f600}x\ny", 0, 2), 2);
}

#[test]
fn offset_is_the_same_every_time() {
    let text = "one\ntwo\nthree";
    let first = offset_of(text, 2, 3);
    assert_eq!(first, 11);
    assert_eq!(offset_of(text, 2, 3), first);
    assert_eq!(offset_of(&text.to_string(), 2, 3), first);
}

#[test]
fn char_index_of_ascii_is_the_offset() {
    assert_eq!(char_index_of("abc", 0), 0);
    assert_eq!(char_index_of("abc", 2), 2);
    assert_eq!(char_index_of("abc", 3), 3);
    assert_eq!(char_index_of("abc", 4), 3);
    assert_eq!(char_index_of("", 0), 0);
    assert_eq!(char_index_of("", 9), 0);
}

#[test]
fn char_index_of_moves_back_to_the_start_of_a_character() {
    let text = "a\u{1f600}b";
    assert_eq!(char_index_of(text, 1), 1);
    assert_eq!(char_index_of(text, 2), 1);
    assert_eq!(char_index_of(text, 3), 2);
    assert_eq!(char_index_of(text, 4), 3);
    assert_eq!(char_index_of(text, usize::MAX), 3);
}

#[test]
fn splice_replaces_a_stretch() {
    assert_eq!(splice("hello", 1, 3, "EY"), "hEYlo");
    assert_eq!(splice("hello", 0, 0, ">"), ">hello");
    assert_eq!(splice("hello", 5, 5, "!"), "hello!");
    assert_eq!(splice("hello", 0, 5, ""), "");
    assert_eq!(splice("a\u{1f600}b", 1, 2, "-"), "a-b");
}

#[test]
fn splice_clamps_its_ends_to_the_text() {
    assert_eq!(splice("hello", 3, 99, "p"), "help");
    assert_eq!(splice("hello", 7, 9, "!"), "hello!");
    assert_eq!(splice("hello", 4, 2, "X"), "hellXo");
    assert_eq!(splice("", 1, 0, "x"), "x");
}

#[test]
fn white_space_is_the_unicode_property() {
    for c in ['\t', '\n', '\u{b}', '\u{c}', '\r', ' ', '\u{85}', '\u{a0}', '\u{1680}', '\u{2000}',
        '\u{200a}', '\u{2028}', '\u{2029}', '\u{202f}', '\u{205f}', '\u{3000}']
    {
        assert!(char_is_whitespace(c));
        assert!(c.is_whitespace());
    }
    for c in ['a', '0', '\u{8}', '\u{e}', '\u{1f}', '\u{200b}', '\u{feff}', '\u{180e}', '_'] {
        assert!(!char_is_whitespace(c));
        assert!(!c.is_whitespace());
    }
}

#[test]
fn white_space_agrees_with_std_on_every_character() {
    let mut code: u32 = 0;
    while code <= 0x10ffff {
        if let Some(c) = char::from_u32(code) {
            assert_eq!(char_is_whitespace(c), c.is_whitespace());
        }
        code += 1;
    }
}

#[test]
fn trim_end_cuts_only_the_end() {
    assert_eq!(trim_end("  foo()  \n"), "  foo()");
    assert_eq!(trim_end("foo"), "foo");
    assert_eq!(trim_end(" \t\n"), "");
    assert_eq!(trim_end(""), "");
    assert_eq!(trim_end("a b\u{3000}"), "a b");
}

#[test]
fn trim_start_cuts_only_the_start() {
    assert_eq!(trim_start("  foo()  \n"), "foo()  \n");
    assert_eq!(trim_start("foo"), "foo");
    assert_eq!(trim_start(" \t\n"), "");
    assert_eq!(trim_start(""), "");
}

#[test]
fn trim_cuts_both_ends() {
    assert_eq!(trim(" \ttoken\r\n"), "token");
    assert_eq!(trim("a  b"), "a  b");
    assert_eq!(trim("   "), "");
    for sample in ["", " x ", "\u{a0}y\u{2003}", "no space", "\n\n"] {
        assert_eq!(trim(sample), sample.trim());
        assert_eq!(trim_end(sample), sample.trim_end());
        assert_eq!(trim_start(sample), sample.trim_start());
    }
}

#[test]
fn str_eq_compares_characters() {
    assert!(str_eq("codeium", "codeium"));
    assert!(!str_eq("codeium", "Codeium"));
    assert!(!str_eq("codeium", "codeium "));
    assert!(str_eq("", ""));
}
