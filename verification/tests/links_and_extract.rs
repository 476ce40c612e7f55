use kloakt::extract::{
    build_fallback, content_needs_fallback, finish_content, main_content, script_value_to_text,
    truncate_content, apply_fallback, PageMeta, ScriptValue,
};
use kloakt::links::{links_lines, links_text, resolve_href, LinkInfo};

fn link(href: &str, text: &str) -> LinkInfo {
    LinkInfo { href: href.to_string(), text: text.to_string() }
}

fn meta(desc: &str, og_title: &str, og_desc: &str, og_url: &str, og_image: &str) -> PageMeta {
    PageMeta {
        description: desc.to_string(),
        og_title: og_title.to_string(),
        og_description: og_desc.to_string(),
        og_url: og_url.to_string(),
        og_image: og_image.to_string(),
    }
}

#[test]
fn links_are_resolved_against_the_page() {
    let links = vec![
        link("/a", " A "),
        link("https://x.org", ""),
        link("", "empty"),
        link("b?q=1", "B"),
    ];
    let lines = links_lines(Some("https://example.com/dir/page"), &links);
    assert_eq!(
        lines,
        vec![
            "https://example.com/a\tA".to_string(),
            "https://x.org".to_string(),
            "https://example.com/dir/page\tempty".to_string(),
            "https://example.com/dir/b?q=1\tB".to_string(),
        ]
    );
}

#[test]
fn links_without_page_url_keep_href_and_drop_empty() {
    let links = vec![link("/a", "A"), link("", "nothing"), link("http://h/", "  ")];
    assert_eq!(links_lines(None, &links), vec!["/a\tA".to_string(), "http://h/".to_string()]);
    assert_eq!(links_text(None, &links), "/a\tA\nhttp://h/");
}

#[test]
fn relative_reference_is_joined() {
    assert_eq!(resolve_href(Some("https://example.com/a/b"), "../c"), "https://example.com/c");
    assert_eq!(resolve_href(Some("https://example.com/a/b"), "https://other/"), "https://other/");
    assert_eq!(resolve_href(Some("not a url"), "x"), "x");
}

#[test]
fn script_values_print() {
    assert_eq!(script_value_to_text(&ScriptValue::Str("abc".to_string())), "abc");
    assert_eq!(script_value_to_text(&ScriptValue::Null), "null");
    assert_eq!(script_value_to_text(&ScriptValue::Json("{\"a\":1}".to_string())), "{\"a\":1}");
}

#[test]
fn main_content_needs_text() {
    assert_eq!(main_content(&ScriptValue::Str("# T".to_string())), Some("# T".to_string()));
    assert_eq!(main_content(&ScriptValue::Str("  \n ".to_string())), None);
    assert_eq!(main_content(&ScriptValue::Null), None);
    assert_eq!(main_content(&ScriptValue::Json("3".to_string())), None);
}

#[test]
fn fallback_threshold_counts_bytes() {
    assert!(content_needs_fallback(""));
    assert!(content_needs_fallback(&"a".repeat(49)));
    assert!(!content_needs_fallback(&"a".repeat(50)));
    assert!(content_needs_fallback(&format!("   {}   ", "a".repeat(49))));
    assert!(!content_needs_fallback(&"é".repeat(25)));
    assert!(content_needs_fallback(&"é".repeat(24)));
}

#[test]
fn fallback_parts_in_order() {
    let m = meta(" Desc ", " OG ", "Other desc", "https://u", "https://i/img.png");
    let fb = build_fallback(" Title ", &m, &ScriptValue::Str(" nos ".to_string()), &ScriptValue::Str("**LD**".to_string()));
    assert_eq!(
        fb,
        "# Title\n\n**OG**\n\nDesc\n\nOther desc\n\nURL: https://u\n\n![og:image](https://i/img.png)\n\nnos\n\n**LD**"
    );
}

#[test]
fn fallback_skips_empty_and_repeated_parts() {
    let m = meta("Same", "", "Same", "", "");
    let fb = build_fallback("  ", &m, &ScriptValue::Null, &ScriptValue::Str("   ".to_string()));
    assert_eq!(fb, "Same");
    let none = build_fallback("", &meta("", "", "", "", ""), &ScriptValue::Null, &ScriptValue::Null);
    assert_eq!(none, "");
}

#[test]
fn fallback_applies_only_to_short_content() {
    assert_eq!(apply_fallback("short".to_string(), "fb".to_string()), "fb");
    assert_eq!(apply_fallback("short".to_string(), "  ".to_string()), "short");
    let long = "x".repeat(60);
    assert_eq!(apply_fallback(long.clone(), "fb".to_string()), long);
}

#[test]
fn truncation_cuts_at_last_line_break() {
    let c = "line1\nline2\nline3".to_string();
    assert_eq!(truncate_content(c, Some(8)), "line1\n\n[...truncated at 5 chars]");
}

#[test]
fn truncation_without_line_break_cuts_at_cap() {
    assert_eq!(truncate_content("abcdefghij".to_string(), Some(4)), "abcd\n\n[...truncated at 4 chars]");
    assert_eq!(truncate_content("ééééé".to_string(), Some(3)), "ééé\n\n[...truncated at 3 chars]");
}

#[test]
fn truncation_leaves_short_or_uncapped_content() {
    assert_eq!(truncate_content("abc".to_string(), Some(3)), "abc");
    assert_eq!(truncate_content("abc".to_string(), Some(0)), "abc");
    assert_eq!(truncate_content("abc".to_string(), None), "abc");
}

#[test]
fn finish_content_falls_back_then_caps() {
    let m = meta("A description long enough to be kept as it is here.", "", "", "", "");
    let out = finish_content("tiny".to_string(), "Page", &m, &ScriptValue::Null, &ScriptValue::Null, Some(10));
    assert_eq!(out, "# Page\n\n\n[...truncated at 7 chars]");
}

#[test]
fn absolute_links_are_kept_on_any_page() {
    for base in [None, Some("https://example.com/"), Some("bogus")] {
        assert_eq!(resolve_href(base, "http://a.b/c?d"), "http://a.b/c?d");
        assert_eq!(resolve_href(base, "https://a.b/../x"), "https://a.b/../x");
    }
}

#[test]
fn listing_has_at_most_one_line_per_link_starting_with_its_url() {
    let links = vec![link("", ""), link("/x", "X"), link("mailto:a@b", "mail")];
    let lines = links_lines(Some("https://h.org/p"), &links);
    assert!(lines.len() <= links.len());
    assert!(lines.iter().all(|l| !l.is_empty()));
    assert!(lines[1].starts_with("https://h.org/x"));
    assert_eq!(lines[2], "mailto:a@b\tmail");
}
