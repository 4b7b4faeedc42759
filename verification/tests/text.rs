use openapi_lib_generator::text::{
    clone_strings, count_leading_spaces, extend_strings, is_whitespace_char, join, join_path,
    push_str, split, strings_of, strip_indent, trim_end,
};
use std::path::Path;

fn samples() -> Vec<&'static str> {
    vec![
        "",
        ";",
        "a",
        "a;b",
        "Ann;Bo",
        ";a;;b;",
        " a ; b ",
        "x\ny\n",
        "   indented",
        "tabs\t\t",
        "trailing  \u{a0}\u{2003}",
        "\u{3000}",
        "no\u{200b}space\u{200b}",
        "h\u{e9}llo w\u{f6}rld  ",
        "\r\n",
        "  a  ",
    ]
}

#[test]
fn split_agrees_with_std() {
    for s in samples() {
        for sep in [';', '\n', ' ', '/'] {
            let expected: Vec<String> = s.split(sep).map(|p| p.to_string()).collect();
            assert_eq!(split(s, sep), expected, "{s:?} at {sep:?}");
        }
    }
}

#[test]
fn split_of_empty_text_is_one_empty_piece() {
    assert_eq!(split("", ';'), vec![String::new()]);
}

#[test]
fn split_keeps_empty_pieces_and_blanks() {
    assert_eq!(split(";a ;; b;", ';'), vec!["", "a ", "", " b", ""]);
}

#[test]
fn join_of_split_gives_the_text_back() {
    for s in samples() {
        assert_eq!(join(&split(s, ';'), ";"), s);
    }
}

#[test]
fn join_puts_separator_between_neighbours_only() {
    let parts = vec!["Ann".to_string(), "Bo".to_string(), "Cy".to_string()];
    assert_eq!(join(&parts, ", "), "Ann, Bo, Cy");
    assert_eq!(join(&vec!["Ann".to_string()], ", "), "Ann");
    assert_eq!(join(&Vec::new(), ", "), "");
}

#[test]
fn whitespace_agrees_with_std_on_every_char() {
    let mut c = '\0';
    loop {
        assert_eq!(is_whitespace_char(c), c.is_whitespace(), "{:?}", c);
        if c == char::MAX {
            break;
        }
        c = std::char::from_u32(c as u32 + 1).unwrap_or('\u{e000}');
    }
}

#[test]
fn trim_end_agrees_with_std() {
    for s in samples() {
        assert_eq!(trim_end(s), s.trim_end(), "{s:?}");
    }
}

#[test]
fn trim_end_cuts_only_the_end() {
    assert_eq!(trim_end("  a b \t\r\n"), "  a b");
    assert_eq!(trim_end(" \t "), "");
}

#[test]
fn leading_spaces_count_blanks_only() {
    assert_eq!(count_leading_spaces(""), 0);
    assert_eq!(count_leading_spaces("   "), 3);
    assert_eq!(count_leading_spaces("  a  "), 2);
    assert_eq!(count_leading_spaces("\t a"), 0);
    for s in samples() {
        assert_eq!(
            count_leading_spaces(s),
            s.len() - s.trim_start_matches(" ").len(),
            "{s:?}"
        );
    }
}

#[test]
fn strip_indent_agrees_with_strip_prefix() {
    for s in samples() {
        for n in 0..5usize {
            let target = " ".repeat(n);
            assert_eq!(strip_indent(s, n), s.strip_prefix(&target).unwrap_or(s), "{s:?} by {n}");
        }
    }
}

#[test]
fn strip_indent_leaves_short_indentation() {
    assert_eq!(strip_indent("  ab", 2), "ab");
    assert_eq!(strip_indent("   ab", 2), " ab");
    assert_eq!(strip_indent(" ab", 2), " ab");
}

#[test]
fn join_path_agrees_with_std() {
    let bases = ["", "/", "/tmp", "/tmp/", "rel", "rel/dir", "."];
    let children = ["temp", ".gitignore", "a/b", "/abs", "/"];
    for base in bases {
        for child in children {
            let expected = Path::new(base).join(child).to_string_lossy().to_string();
            assert_eq!(join_path(base, child), expected, "{base:?} {child:?}");
        }
    }
}

#[test]
fn join_path_puts_one_slash_between() {
    assert_eq!(join_path("/tmp", "temp"), "/tmp/temp");
    assert_eq!(join_path("/tmp/", "temp"), "/tmp/temp");
    assert_eq!(join_path("", "temp"), "temp");
    assert_eq!(join_path("/tmp", "/etc"), "/etc");
}

#[test]
fn lists_of_texts_are_copied_and_extended() {
    let mut v = strings_of(&["a", "b"]);
    assert_eq!(v, vec!["a", "b"]);
    assert_eq!(clone_strings(&v), v);
    let more = strings_of(&["c"]);
    extend_strings(&mut v, &more);
    push_str(&mut v, "d");
    assert_eq!(v, vec!["a", "b", "c", "d"]);
}
