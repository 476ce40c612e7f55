//! The content of the `extract` command: choosing the extracted text,
//! falling back to page metadata when the page yields too little text, and
//! capping the result at a number of characters.

use vstd::prelude::*;
use vstd::utf8::encode_utf8;
use crate::text::{trim, trim_str, to_chars, join, views, join_strings, from_chars, decimal, push_decimal};

verus! {

/// A value that a script evaluated in the page returned.
pub enum ScriptValue {
    /// A string.
    Str(String),
    /// `null` (also what a failed evaluation gives).
    Null,
    /// Any other value, held as its compact JSON text.
    Json(String),
}

/// The text a script value prints as: a string as it is, anything else as
/// its JSON text (`null` for null).
pub open spec fn script_value_text(v: ScriptValue) -> Seq<char> {
    match v {
        ScriptValue::Str(s) => s@,
        ScriptValue::Null => "null"@,
        ScriptValue::Json(t) => t@,
    }
}

/// The text a script value prints as (`fetch --eval` output, and the
/// markdown that the page's converter script returned).
pub fn script_value_to_text(v: &ScriptValue) -> (r: String)
    ensures
        r@ == script_value_text(*v),
{
    match v {
        ScriptValue::Str(s) => s.clone(),
        ScriptValue::Null => "null".to_owned(),
        ScriptValue::Json(t) => t.clone(),
    }
}

/// What the main-content extraction script gave, where it is usable: a
/// string that is not blank. Otherwise the page's full markdown is used.
pub open spec fn usable_main_content(v: ScriptValue) -> Option<Seq<char>> {
    match v {
        ScriptValue::Str(s) => if trim(s@).len() > 0 {
            Some(s@)
        } else {
            None
        },
        _ => None,
    }
}

/// The result of the main-content extraction script, where it is usable.
pub fn main_content(v: &ScriptValue) -> (r: Option<String>)
    ensures
        match r {
            Some(s) => usable_main_content(*v) == Some(s@),
            None => usable_main_content(*v) is None,
        },
{
    match v {
        ScriptValue::Str(s) => {
            let t = trim_str(s.as_str());
            if t.as_str().is_empty() {
                None
            } else {
                Some(s.clone())
            }
        },
        _ => None,
    }
}

/// The metadata of a page that the fallback content is built from; each
/// field is empty where the page does not have it.
pub struct PageMeta {
    /// `<meta name|property="description">`
    pub description: String,
    /// `<meta property="og:title">`
    pub og_title: String,
    /// `<meta property="og:description">`
    pub og_description: String,
    /// `<meta property="og:url">`
    pub og_url: String,
    /// `<meta property="og:image">`
    pub og_image: String,
}

/// Whether extracted content is too short to keep on its own: its trimmed
/// text is under 50 bytes of UTF-8.
pub open spec fn needs_fallback(content: Seq<char>) -> bool {
    encode_utf8(trim(content)).len() < 50
}

/// Whether `content` is too short to keep on its own.
pub fn content_needs_fallback(content: &str) -> (r: bool)
    ensures
        r == needs_fallback(content@),
{
    let t = trim_str(content);
    t.as_str().as_bytes().len() < 50
}

/// A one-part list where `cond` holds, else an empty one.
pub open spec fn part_if(cond: bool, part: Seq<char>) -> Seq<Seq<char>> {
    if cond {
        seq![part]
    } else {
        Seq::empty()
    }
}

/// The trimmed text of a script value that is a string with some text.
pub open spec fn script_text_part(v: ScriptValue) -> Seq<Seq<char>> {
    match v {
        ScriptValue::Str(s) => part_if(trim(s@).len() > 0, trim(s@)),
        _ => Seq::empty(),
    }
}

/// The parts of the fallback content, in order: the title as a heading,
/// the `og:title` in bold, the description, an `og:description` that
/// differs from it, the `og:url`, the `og:image` as an image, the
/// `<noscript>` text and the JSON-LD text.
pub open spec fn fallback_parts(
    title: Seq<char>,
    meta: PageMeta,
    noscript: ScriptValue,
    json_ld: ScriptValue,
) -> Seq<Seq<char>> {
    part_if(trim(title).len() > 0, "# "@ + trim(title))
        + part_if(meta.og_title@.len() > 0, "**"@ + trim(meta.og_title@) + "**"@)
        + part_if(meta.description@.len() > 0, trim(meta.description@))
        + part_if(
        meta.og_description@.len() > 0 && meta.og_description@ != meta.description@,
        trim(meta.og_description@),
    ) + part_if(meta.og_url@.len() > 0, "URL: "@ + meta.og_url@)
        + part_if(meta.og_image@.len() > 0, "![og:image]("@ + meta.og_image@ + ")"@)
        + script_text_part(noscript) + script_text_part(json_ld)
}

/// An `og:description` that is not empty and differs from the description
/// adds exactly one part, its trimmed text, whatever the description is
/// (empty included): the parts are those for the same page without it,
/// with that one part put in.
pub proof fn law_og_description_is_a_part(
    title: Seq<char>,
    meta: PageMeta,
    without: PageMeta,
    noscript: ScriptValue,
    json_ld: ScriptValue,
)
    requires
        meta.og_description@.len() > 0,
        meta.og_description@ != meta.description@,
        without.og_description@.len() == 0,
        without.description@ == meta.description@,
        without.og_title@ == meta.og_title@,
        without.og_url@ == meta.og_url@,
        without.og_image@ == meta.og_image@,
    ensures
        ({
            let with_parts = fallback_parts(title, meta, noscript, json_ld);
            let without_parts = fallback_parts(title, without, noscript, json_ld);
            &&& with_parts.len() == without_parts.len() + 1
            &&& exists|i: int|
                0 <= i < with_parts.len() && with_parts[i] == trim(meta.og_description@)
                    && #[trigger] with_parts.remove(i) == without_parts
        }),
{
    let a1 = part_if(trim(title).len() > 0, "# "@ + trim(title));
    let a2 = part_if(meta.og_title@.len() > 0, "**"@ + trim(meta.og_title@) + "**"@);
    let a3 = part_if(meta.description@.len() > 0, trim(meta.description@));
    let d = part_if(
        meta.og_description@.len() > 0 && meta.og_description@ != meta.description@,
        trim(meta.og_description@),
    );
    let d0 = part_if(
        without.og_description@.len() > 0 && without.og_description@ != without.description@,
        trim(without.og_description@),
    );
    let b1 = part_if(meta.og_url@.len() > 0, "URL: "@ + meta.og_url@);
    let b2 = part_if(meta.og_image@.len() > 0, "![og:image]("@ + meta.og_image@ + ")"@);
    let c1 = script_text_part(noscript);
    let c2 = script_text_part(json_ld);
    let with_parts = fallback_parts(title, meta, noscript, json_ld);
    let without_parts = fallback_parts(title, without, noscript, json_ld);
    assert(d == seq![trim(meta.og_description@)]);
    assert(d0 =~= Seq::<Seq<char>>::empty());
    assert(with_parts == a1 + a2 + a3 + d + b1 + b2 + c1 + c2);
    assert(without_parts == a1 + a2 + a3 + d0 + b1 + b2 + c1 + c2);
    assert(a1 + a2 + a3 + d0 == a1 + a2 + a3);
    lemma_one_more_part(a1 + a2 + a3, trim(meta.og_description@), b1, b2, c1, c2);
    let k = (a1 + a2 + a3).len() as int;
    assert(with_parts.remove(k) == without_parts);
}

/// Putting one part in a list of parts.
proof fn lemma_one_more_part(
    a: Seq<Seq<char>>,
    x: Seq<char>,
    b1: Seq<Seq<char>>,
    b2: Seq<Seq<char>>,
    c1: Seq<Seq<char>>,
    c2: Seq<Seq<char>>,
)
    ensures
        (a + seq![x] + b1 + b2 + c1 + c2).len() == (a + b1 + b2 + c1 + c2).len() + 1,
        (a + seq![x] + b1 + b2 + c1 + c2)[a.len() as int] == x,
        (a + seq![x] + b1 + b2 + c1 + c2).remove(a.len() as int) == a + b1 + b2 + c1 + c2,
{
    assert((a + seq![x] + b1 + b2 + c1 + c2).remove(a.len() as int) =~= a + b1 + b2 + c1 + c2);
}

/// The fallback content: its parts separated by blank lines.
pub open spec fn fallback_content(
    title: Seq<char>,
    meta: PageMeta,
    noscript: ScriptValue,
    json_ld: ScriptValue,
) -> Seq<char> {
    join(fallback_parts(title, meta, noscript, json_ld), "\n\n"@)
}

/// Appends `parts` to `list` as one string.
fn push_part(list: &mut Vec<String>, prefix: &str, body: &str, suffix: &str)
    ensures
        views(final(list)@) == views(old(list)@).push(prefix@ + body@ + suffix@),
{
    let mut p = prefix.to_owned();
    p.append(body);
    p.append(suffix);
    list.push(p);
    assert(views(list@) =~= views(old(list)@).push(prefix@ + body@ + suffix@));
}

/// Appends the trimmed text of a script value that is a non-blank string.
fn push_script_text(list: &mut Vec<String>, v: &ScriptValue)
    ensures
        views(final(list)@) == views(old(list)@) + script_text_part(*v),
{
    match v {
        ScriptValue::Str(s) => {
            let t = trim_str(s.as_str());
            if !t.as_str().is_empty() {
                push_part(list, "", t.as_str(), "");
                assert(""@ =~= Seq::<char>::empty()) by {
                    reveal_strlit("");
                }
            }
        },
        _ => {},
    }
    assert(views(list@) =~= views(old(list)@) + script_text_part(*v));
}

/// The fallback content assembled from a page's title, metadata,
/// `<noscript>` text and JSON-LD text.
pub fn build_fallback(
    title: &str,
    meta: &PageMeta,
    noscript: &ScriptValue,
    json_ld: &ScriptValue,
) -> (r: String)
    ensures
        r@ == fallback_content(title@, *meta, *noscript, *json_ld),
{
    proof {
        reveal_strlit("");
    }
    let mut parts: Vec<String> = Vec::new();
    let ghost empty: Seq<char> = ""@;
    assert(empty =~= Seq::<char>::empty());
    let t = trim_str(title);
    if !t.as_str().is_empty() {
        push_part(&mut parts, "# ", t.as_str(), "");
    }
    let ghost p1 = views(parts@);
    assert(p1 =~= part_if(trim(title@).len() > 0, "# "@ + trim(title@)));
    if !meta.og_title.as_str().is_empty() {
        let ot = trim_str(meta.og_title.as_str());
        push_part(&mut parts, "**", ot.as_str(), "**");
    }
    let ghost p2 = views(parts@);
    assert(p2 =~= p1 + part_if(meta.og_title@.len() > 0, "**"@ + trim(meta.og_title@) + "**"@));
    if !meta.description.as_str().is_empty() {
        let d = trim_str(meta.description.as_str());
        push_part(&mut parts, "", d.as_str(), "");
    }
    let ghost p3 = views(parts@);
    assert(p3 =~= p2 + part_if(meta.description@.len() > 0, trim(meta.description@)));
    if !meta.og_description.as_str().is_empty() && meta.og_description != meta.description {
        let od = trim_str(meta.og_description.as_str());
        push_part(&mut parts, "", od.as_str(), "");
    }
    let ghost p4 = views(parts@);
    assert(p4 =~= p3 + part_if(
        meta.og_description@.len() > 0 && meta.og_description@ != meta.description@,
        trim(meta.og_description@),
    ));
    if !meta.og_url.as_str().is_empty() {
        push_part(&mut parts, "URL: ", meta.og_url.as_str(), "");
    }
    let ghost p5 = views(parts@);
    assert(p5 =~= p4 + part_if(meta.og_url@.len() > 0, "URL: "@ + meta.og_url@));
    if !meta.og_image.as_str().is_empty() {
        push_part(&mut parts, "![og:image](", meta.og_image.as_str(), ")");
    }
    let ghost p6 = views(parts@);
    assert(p6 =~= p5 + part_if(meta.og_image@.len() > 0, "![og:image]("@ + meta.og_image@ + ")"@));
    push_script_text(&mut parts, noscript);
    push_script_text(&mut parts, json_ld);
    assert(views(parts@) =~= fallback_parts(title@, *meta, *noscript, *json_ld));
    join_strings(&parts, "\n\n")
}


/// The content kept for the page: the fallback content where the extracted
/// content is too short and the fallback has some text, else the content.
pub open spec fn content_with_fallback(content: Seq<char>, fallback: Seq<char>) -> Seq<char> {
    if needs_fallback(content) && trim(fallback).len() > 0 {
        fallback
    } else {
        content
    }
}

/// The index of the last line break in `s`, if any.
pub open spec fn last_newline(s: Seq<char>) -> Option<int>
    decreases s.len(),
{
    if s.len() == 0 {
        None
    } else if s.last() == '\n' {
        Some(s.len() - 1)
    } else {
        last_newline(s.drop_last())
    }
}

/// A line break found is one, within the text.
pub proof fn lemma_last_newline_in_range(s: Seq<char>)
    ensures
        last_newline(s) matches Some(i) ==> 0 <= i < s.len() && s[i] == '\n',
        last_newline(s) is None ==> forall|k: int| 0 <= k < s.len() ==> s[k] != '\n',
    decreases s.len(),
{
    if s.len() > 0 && s.last() != '\n' {
        lemma_last_newline_in_range(s.drop_last());
        assert forall|k: int| 0 <= k < s.len() - 1 implies s[k] == s.drop_last()[k] by {}
    }
}

/// Where over-long content is cut: at the last line break among its first
/// `cap` characters, or after `cap` characters where there is none.
pub open spec fn cut_point(content: Seq<char>, cap: int) -> int {
    match last_newline(content.take(cap)) {
        Some(i) => i,
        None => cap,
    }
}

/// Content capped at `max_chars` characters: unchanged when there is no
/// cap, the cap is 0 or the content is not longer; else the part before
/// the cut point followed by a note of where it was cut.
pub open spec fn truncated(content: Seq<char>, max_chars: Option<usize>) -> Seq<char> {
    match max_chars {
        Some(cap) => if cap > 0 && content.len() > cap {
            let at = cut_point(content, cap as int);
            content.take(at) + "\n\n[...truncated at "@ + decimal(at as nat) + " chars]"@
        } else {
            content
        },
        None => content,
    }
}

/// Content long enough to stand on its own is kept, whatever the fallback.
pub proof fn law_long_content_kept(content: Seq<char>, fallback: Seq<char>)
    requires
        !needs_fallback(content),
    ensures
        content_with_fallback(content, fallback) == content,
{
}

/// Content is capped only when a positive cap is given and the content is
/// longer than it.
pub proof fn law_uncapped_content_unchanged(content: Seq<char>, max_chars: Option<usize>)
    requires
        match max_chars {
            Some(cap) => cap == 0 || content.len() <= cap,
            None => true,
        },
    ensures
        truncated(content, max_chars) == content,
{
}

/// Capped content keeps at most `cap` leading characters, cut at a line
/// break where the first `cap` characters hold one (the last such), and
/// says where it was cut.
pub proof fn law_capped_content_shape(content: Seq<char>, cap: usize)
    requires
        0 < cap < content.len(),
    ensures
        ({
            let at = cut_point(content, cap as int);
            &&& 0 <= at <= cap
            &&& at < cap ==> content[at] == '\n'
            &&& at == cap ==> forall|k: int| 0 <= k < cap ==> content[k] != '\n'
            &&& forall|k: int| at < k < cap ==> content[k] != '\n'
            &&& truncated(content, Some(cap)) == content.take(at) + "\n\n[...truncated at "@
                + decimal(at as nat) + " chars]"@
        }),
{
    let head = content.take(cap as int);
    lemma_last_newline_in_range(head);
    lemma_last_newline_is_last(head);
    assert forall|k: int| 0 <= k < cap implies head[k] == content[k] by {}
    let at = cut_point(content, cap as int);
    if at < cap {
        assert(head[at] == '\n');
    }
}

/// No line break follows the one `last_newline` finds.
pub proof fn lemma_last_newline_is_last(s: Seq<char>)
    ensures
        last_newline(s) matches Some(i) ==> forall|k: int| i < k < s.len() ==> #[trigger] s[k] != '\n',
    decreases s.len(),
{
    if s.len() > 0 && s.last() != '\n' {
        let t = s.drop_last();
        lemma_last_newline_is_last(t);
        lemma_last_newline_in_range(s);
        if let Some(i) = last_newline(s) {
            assert forall|k: int| i < k < s.len() implies #[trigger] s[k] != '\n' by {
                if k < s.len() - 1 {
                    assert(s[k] == t[k]);
                }
            }
        }
    }
}

/// The content, falling back to the metadata content where it is too short.
pub fn apply_fallback(content: String, fallback: String) -> (r: String)
    ensures
        r@ == content_with_fallback(content@, fallback@),
{
    if content_needs_fallback(content.as_str()) {
        let f = trim_str(fallback.as_str());
        if !f.as_str().is_empty() {
            return fallback;
        }
    }
    content
}

/// The index of the last line break among the first `end` characters of `v`.
fn find_last_newline(v: &Vec<char>, end: usize) -> (r: Option<usize>)
    requires
        end <= v.len(),
    ensures
        match r {
            Some(i) => last_newline(v@.take(end as int)) == Some(i as int),
            None => last_newline(v@.take(end as int)) is None,
        },
{
    let mut j = end;
    while j > 0
        invariant
            j <= end <= v.len(),
            last_newline(v@.take(end as int)) == last_newline(v@.take(j as int)),
        decreases j,
    {
        if v[j - 1] == '\n' {
            return Some(j - 1);
        }
        assert(v@.take(j as int).drop_last() =~= v@.take(j - 1));
        j = j - 1;
    }
    None
}

/// Caps `content` at `max_chars` characters (`extract --max-chars`).
pub fn truncate_content(content: String, max_chars: Option<usize>) -> (r: String)
    ensures
        r@ == truncated(content@, max_chars),
{
    match max_chars {
        Some(cap) => {
            let v = to_chars(content.as_str());
            if cap > 0 && v.len() > cap {
                proof {
                    lemma_last_newline_in_range(v@.take(cap as int));
                }
                let at = match find_last_newline(&v, cap) {
                    Some(i) => i,
                    None => cap,
                };
                assert(at as int == cut_point(content@, cap as int));
                let mut r = from_chars(&v, 0, at);
                r.append("\n\n[...truncated at ");
                push_decimal(&mut r, at as u64);
                r.append(" chars]");
                assert(v@.subrange(0, at as int) =~= content@.take(at as int));
                r
            } else {
                content
            }
        },
        None => content,
    }
}

/// The content that `extract` prints: the chosen content, with the
/// metadata fallback applied, capped at `max_chars` characters.
pub open spec fn final_content(
    content: Seq<char>,
    title: Seq<char>,
    meta: PageMeta,
    noscript: ScriptValue,
    json_ld: ScriptValue,
    max_chars: Option<usize>,
) -> Seq<char> {
    truncated(
        content_with_fallback(content, fallback_content(title, meta, noscript, json_ld)),
        max_chars,
    )
}

/// The content that `extract` prints, from the extracted content and what
/// was read of the page before extraction.
pub fn finish_content(
    content: String,
    title: &str,
    meta: &PageMeta,
    noscript: &ScriptValue,
    json_ld: &ScriptValue,
    max_chars: Option<usize>,
) -> (r: String)
    ensures
        r@ == final_content(content@, title@, *meta, *noscript, *json_ld, max_chars),
{
    let fallback = build_fallback(title, meta, noscript, json_ld);
    let kept = apply_fallback(content, fallback);
    truncate_content(kept, max_chars)
}

} // verus!
