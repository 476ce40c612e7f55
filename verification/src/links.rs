//! The link listing of a page (`links` dumps): each anchor's target,
//! resolved against the page URL, with its trimmed text.

use vstd::prelude::*;
use crate::text::{trim, trim_str, to_chars, has_prefix, starts_with_chars, join, views, join_strings, push_char};

verus! {

/// What the link listing reads of one anchor element: its `href`
/// attribute (empty where it has none) and its text content.
pub struct LinkInfo {
    pub href: String,
    pub text: String,
}

/// What `url::Url::join` gives for `reference` against the URL whose
/// serialization is `base`, serialized; `None` where either fails to parse.
pub uninterp spec fn url_resolved(base: Seq<char>, reference: Seq<char>) -> Option<Seq<char>>;

/// Parses `base` with `url::Url::parse`, joins `reference` to it with
/// `url::Url::join` and serializes the result (`Display`). The contract
/// claims only that the result is the named `url_resolved` of the two
/// arguments: what the URL parser does is not restated.
#[verifier::external_body]
fn resolve_reference(base: &str, reference: &str) -> (r: Option<String>)
    ensures
        match r {
            Some(u) => url_resolved(base@, reference@) == Some(u@),
            None => url_resolved(base@, reference@) is None,
        },
{
    match url::Url::parse(base) {
        Ok(b) => match b.join(reference) {
            Ok(u) => Some(u.to_string()),
            Err(_) => None,
        },
        Err(_) => None,
    }
}

/// Whether `href` is an absolute `http` or `https` URL, taken as it is.
pub open spec fn is_absolute_http(href: Seq<char>) -> bool {
    has_prefix(href, "http://"@) || has_prefix(href, "https://"@)
}

/// The URL a link points to: absolute `http(s)` targets as they are, others
/// joined to the page URL where there is one and the join succeeds, and the
/// raw `href` otherwise.
pub open spec fn resolved_href(base: Option<Seq<char>>, href: Seq<char>) -> Seq<char> {
    if is_absolute_http(href) {
        href
    } else {
        match base {
            Some(b) => match url_resolved(b, href) {
                Some(u) => u,
                None => href,
            },
            None => href,
        }
    }
}

/// The listing line of one link: nothing where the URL is empty, else the
/// URL, followed by a tab and the trimmed text where that is not empty.
pub open spec fn link_line(base: Option<Seq<char>>, link: LinkInfo) -> Option<Seq<char>> {
    let url = resolved_href(base, link.href@);
    let text = trim(link.text@);
    if url.len() == 0 {
        None
    } else if text.len() == 0 {
        Some(url)
    } else {
        Some(url + seq!['\t'] + text)
    }
}

/// The listing lines of `links`, in order.
pub open spec fn link_lines(base: Option<Seq<char>>, links: Seq<LinkInfo>) -> Seq<Seq<char>>
    decreases links.len(),
{
    if links.len() == 0 {
        Seq::empty()
    } else {
        let prev = link_lines(base, links.drop_last());
        match link_line(base, links.last()) {
            Some(l) => prev.push(l),
            None => prev,
        }
    }
}

/// An absolute `http`/`https` link is listed as written, whatever page it
/// is on.
pub proof fn law_absolute_links_kept(base: Option<Seq<char>>, href: Seq<char>)
    requires
        is_absolute_http(href),
    ensures
        resolved_href(base, href) == href,
{
}

/// A listing has at most one line per link, and no line is empty.
pub proof fn law_listing_lines(base: Option<Seq<char>>, links: Seq<LinkInfo>)
    ensures
        link_lines(base, links).len() <= links.len(),
        forall|i: int| 0 <= i < link_lines(base, links).len() ==> #[trigger] link_lines(base, links)[i].len() > 0,
    decreases links.len(),
{
    if links.len() > 0 {
        law_listing_lines(base, links.drop_last());
    }
}

/// A link's line starts with the URL it points to.
pub proof fn law_line_starts_with_url(base: Option<Seq<char>>, link: LinkInfo)
    ensures
        link_line(base, link) matches Some(l) ==> has_prefix(l, resolved_href(base, link.href@)),
{
    let u = resolved_href(base, link.href@);
    if let Some(l) = link_line(base, link) {
        assert(l.subrange(0, u.len() as int) =~= u);
    }
}

/// A link with some text is listed as its URL, a tab and its trimmed text,
/// whether its `href` is absolute or relative; an absolute `http(s)` link's
/// URL is its `href` as written.
pub proof fn law_text_follows_url(base: Option<Seq<char>>, link: LinkInfo)
    requires
        trim(link.text@).len() > 0,
        resolved_href(base, link.href@).len() > 0,
    ensures
        link_line(base, link) == Some(resolved_href(base, link.href@) + seq!['\t'] + trim(link.text@)),
        is_absolute_http(link.href@) ==> link_line(base, link) == Some(link.href@ + seq!['\t'] + trim(link.text@)),
{
}

/// In a listing, the line of a link with some text and a non-empty URL ends
/// with a tab and its trimmed text.
pub proof fn law_listing_keeps_link_text(base: Option<Seq<char>>, links: Seq<LinkInfo>)
    requires
        links.len() > 0,
        trim(links.last().text@).len() > 0,
        resolved_href(base, links.last().href@).len() > 0,
    ensures
        link_lines(base, links).last() == resolved_href(base, links.last().href@) + seq!['\t']
            + trim(links.last().text@),
{
}

/// The view of an optional text.
pub open spec fn opt_str_view(o: Option<&str>) -> Option<Seq<char>> {
    match o {
        Some(s) => Some(s@),
        None => None,
    }
}

/// The URL that `href` points to on the page whose URL serializes as
/// `base`.
pub fn resolve_href(base: Option<&str>, href: &str) -> (r: String)
    ensures
        r@ == resolved_href(opt_str_view(base), href@),
{
    let h = to_chars(href);
    if starts_with_chars(&h, &to_chars("http://")) || starts_with_chars(&h, &to_chars("https://")) {
        return href.to_owned();
    }
    match base {
        Some(b) => match resolve_reference(b, href) {
            Some(u) => u,
            None => href.to_owned(),
        },
        None => href.to_owned(),
    }
}

/// The listing line of `link`, if it has one.
pub fn link_line_of(base: Option<&str>, link: &LinkInfo) -> (r: Option<String>)
    ensures
        match r {
            Some(l) => link_line(opt_str_view(base), *link) == Some(l@),
            None => link_line(opt_str_view(base), *link) is None,
        },
{
    let mut url = resolve_href(base, link.href.as_str());
    let text = trim_str(link.text.as_str());
    if url.as_str().is_empty() {
        return None;
    }
    if text.as_str().is_empty() {
        return Some(url);
    }
    push_char(&mut url, '\t');
    url.append(text.as_str());
    Some(url)
}

/// The lines of a link listing (`fetch --dump links` prints them one by one).
pub fn links_lines(base: Option<&str>, links: &Vec<LinkInfo>) -> (r: Vec<String>)
    ensures
        views(r@) == link_lines(opt_str_view(base), links@),
{
    let mut r: Vec<String> = Vec::new();
    let n = links.len();
    let mut i: usize = 0;
    while i < n
        invariant
            i <= n == links.len(),
            views(r@) == link_lines(opt_str_view(base), links@.take(i as int)),
        decreases n - i,
    {
        assert(links@.take(i + 1).drop_last() =~= links@.take(i as int));
        match link_line_of(base, &links[i]) {
            Some(l) => {
                r.push(l);
                assert(views(r@) =~= link_lines(opt_str_view(base), links@.take(i as int)).push(
                    l@,
                ));
            },
            None => {},
        }
        i = i + 1;
    }
    assert(links@.take(n as int) =~= links@);
    r
}

/// The link listing as one text, one link per line (`extract --format links`).
pub fn links_text(base: Option<&str>, links: &Vec<LinkInfo>) -> (r: String)
    ensures
        r@ == join(link_lines(opt_str_view(base), links@), seq!['\n']),
{
    let lines = links_lines(base, links);
    let r = join_strings(&lines, "\n");
    proof {
        reveal_strlit("\n");
        assert("\n"@ =~= seq!['\n']);
    }
    r
}

} // verus!
