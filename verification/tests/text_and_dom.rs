use kloakt::dom::{extract_readable_text, page_text, DomNode};
use kloakt::text::{decimal_string, join_strings, trim_str, white_space};

fn text(s: &str) -> DomNode {
    DomNode::Text { contents: s.to_string() }
}

fn el(tag: &str, children: Vec<DomNode>) -> DomNode {
    DomNode::Element { tag: tag.to_string(), children }
}

#[test]
fn trim_removes_ascii_and_unicode_white_space() {
    assert_eq!(trim_str("  hello \n"), "hello");
    assert_eq!(trim_str("\u{3000}x y\u{a0}\u{2009}"), "x y");
    assert_eq!(trim_str(" \t\r\n "), "");
    assert_eq!(trim_str(""), "");
    assert_eq!(trim_str("inner  space"), "inner  space");
}

#[test]
fn trim_matches_std_trim() {
    for s in ["\u{85}a\u{1680}", " x\u{200b} ", "\u{feff}y", "\u{2028}z\u{205f}"] {
        assert_eq!(trim_str(s), s.trim());
    }
}

#[test]
fn white_space_matches_std() {
    for c in ['\t', '\n', '\u{b}', ' ', '\u{85}', '\u{a0}', '\u{2000}', '\u{200a}', '\u{3000}', 'a', '\u{200b}', '\u{feff}', '0'] {
        assert_eq!(white_space(c), c.is_whitespace());
    }
}

#[test]
fn decimal_numerals() {
    assert_eq!(decimal_string(0), "0");
    assert_eq!(decimal_string(7), "7");
    assert_eq!(decimal_string(1234), "1234");
    assert_eq!(decimal_string(u64::MAX), u64::MAX.to_string());
}

#[test]
fn joins_with_separator() {
    let parts = vec!["a".to_string(), "b".to_string(), "c".to_string()];
    assert_eq!(join_strings(&parts, "\n\n"), "a\n\nb\n\nc");
    assert_eq!(join_strings(&vec![], ","), "");
    assert_eq!(join_strings(&vec!["only".to_string()], ","), "only");
}

#[test]
fn readable_text_of_mixed_tree() {
    let tree = DomNode::Other {
        children: vec![
            el("div", vec![text("  Hello ")]),
            el("span", vec![text("world")]),
            el("script", vec![text("var x = 1;")]),
            el("p", vec![text(" a "), el("style", vec![text("p{}")])]),
        ],
    };
    assert_eq!(extract_readable_text(&tree), "\nHello\nworld\na\n");
    assert_eq!(page_text(Some(&tree)), "Hello\nworld\na");
}

#[test]
fn skipped_elements_are_silent() {
    let s = el("script", vec![el("div", vec![text("hidden")])]);
    assert_eq!(extract_readable_text(&s), "");
    let st = el("style", vec![text("body{}")]);
    assert_eq!(extract_readable_text(&st), "");
}

#[test]
fn block_elements_stand_apart() {
    let b = el("li", vec![]);
    assert_eq!(extract_readable_text(&b), "\n\n");
    let inline = el("em", vec![text("x")]);
    assert_eq!(extract_readable_text(&inline), "x");
}

#[test]
fn white_space_only_text_nodes_vanish() {
    let t = el("span", vec![text("   "), text("a"), text("\n"), text("b")]);
    assert_eq!(extract_readable_text(&t), "ab");
}

#[test]
fn page_without_body_has_no_text() {
    assert_eq!(page_text(None), "");
}

#[test]
fn trimming_twice_is_trimming_once() {
    for s in ["  a b  ", "\u{3000}\u{3000}", "x", "\n\tq\u{a0}"] {
        let once = trim_str(s);
        assert_eq!(trim_str(&once), once);
    }
}

#[test]
fn decimal_numerals_read_back() {
    for n in [0u64, 9, 10, 99, 100, 4096, 18446744073709551615] {
        let d = decimal_string(n);
        assert_eq!(d.parse::<u64>().unwrap(), n);
        assert!(n == 0 || !d.starts_with('0'));
    }
}

#[test]
fn readable_text_of_siblings_concatenates() {
    let a = vec![el("b", vec![text("one ")]), el("div", vec![text("two")])];
    let b = vec![text(" three"), el("i", vec![text("four")])];
    let both: Vec<DomNode> = vec![
        el("b", vec![text("one ")]),
        el("div", vec![text("two")]),
        text(" three"),
        el("i", vec![text("four")]),
    ];
    let ta = extract_readable_text(&DomNode::Other { children: a });
    let tb = extract_readable_text(&DomNode::Other { children: b });
    let tab = extract_readable_text(&DomNode::Other { children: both });
    assert_eq!(tab, format!("{}{}", ta, tb));
    assert_eq!(tab, "one\ntwo\nthreefour");
}
