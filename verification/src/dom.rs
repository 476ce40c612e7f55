//! A page's node tree, as the text dumps read it, and the readable text
//! of a subtree: text nodes trimmed, block elements on lines of their own,
//! scripts and styles left out.

use vstd::prelude::*;
use crate::text::{trim, trim_start, trim_end, trim_str, to_chars, chars_equal, push_char};

verus! {

/// One node of a page's tree.
pub enum DomNode {
    /// A text node and its data.
    Text { contents: String },
    /// An element, by its local tag name, with its child nodes in order.
    Element { tag: String, children: Vec<DomNode> },
    /// Any other node (document, comment, doctype, ...) with its child nodes.
    Other { children: Vec<DomNode> },
}

/// Tags whose content is left out of the readable text.
pub open spec fn is_skipped_tag(t: Seq<char>) -> bool {
    t == "script"@ || t == "style"@
}

/// Tags that stand on lines of their own in the readable text.
pub open spec fn is_block_tag(t: Seq<char>) -> bool {
    ||| t == "div"@ ||| t == "p"@ ||| t == "h1"@ ||| t == "h2"@ ||| t == "h3"@
    ||| t == "h4"@ ||| t == "h5"@ ||| t == "h6"@ ||| t == "li"@ ||| t == "tr"@
    ||| t == "br"@ ||| t == "hr"@ ||| t == "blockquote"@ ||| t == "pre"@
    ||| t == "section"@ ||| t == "article"@ ||| t == "header"@ ||| t == "footer"@
    ||| t == "nav"@ ||| t == "main"@ ||| t == "aside"@ ||| t == "figure"@
    ||| t == "figcaption"@ ||| t == "table"@ ||| t == "thead"@ ||| t == "tbody"@
    ||| t == "tfoot"@ ||| t == "dl"@ ||| t == "dt"@ ||| t == "dd"@ ||| t == "ul"@
    ||| t == "ol"@
}

/// The readable text of a node.
pub open spec fn readable_text(n: DomNode) -> Seq<char>
    decreases n,
{
    match n {
        DomNode::Text { contents } => trim(contents@),
        DomNode::Element { tag, children } => {
            if is_skipped_tag(tag@) {
                Seq::empty()
            } else if is_block_tag(tag@) {
                seq!['\n'] + readable_text_of_all(children@) + seq!['\n']
            } else {
                readable_text_of_all(children@)
            }
        },
        DomNode::Other { children } => readable_text_of_all(children@),
    }
}

/// The readable texts of `nodes`, one after the other.
pub open spec fn readable_text_of_all(nodes: Seq<DomNode>) -> Seq<char>
    decreases nodes,
{
    if nodes.len() == 0 {
        Seq::empty()
    } else {
        readable_text_of_all(nodes.drop_last()) + readable_text(nodes.last())
    }
}


/// A `script` or `style` element adds nothing to the readable text,
/// whatever it holds.
pub proof fn law_skipped_elements_are_silent(n: DomNode)
    requires
        n matches DomNode::Element { tag, .. } && is_skipped_tag(tag@),
    ensures
        readable_text(n) == Seq::<char>::empty(),
{
}

/// A block element's readable text starts and ends with a line break.
pub proof fn law_block_elements_stand_apart(n: DomNode)
    requires
        n matches DomNode::Element { tag, .. } && is_block_tag(tag@) && !is_skipped_tag(tag@),
    ensures
        readable_text(n).len() >= 2,
        readable_text(n)[0] == '\n',
        readable_text(n).last() == '\n',
{
}

/// A text node reads as its data without leading or trailing white space.
pub proof fn law_text_nodes_are_trimmed(n: DomNode)
    requires
        n is Text,
    ensures
        trim(readable_text(n)) == readable_text(n),
{
    match n {
        DomNode::Text { contents } => crate::text::lemma_trim_idempotent(contents@),
        _ => {},
    }
}

/// Each of the block tags `div`, `p`, `h1`-`h6`, `li`, `tr`, `br`, `hr`,
/// `blockquote`, `pre`, `section`, `article`, `header`, `footer`, `nav`,
/// `main`, `aside`, `figure`, `figcaption`, `table`, `thead`, `tbody`,
/// `tfoot`, `dl`, `dt`, `dd`, `ul` and `ol` puts its content on lines of its
/// own: its readable text is a line break, the readable text of its
/// children, and a line break, whatever the children are.
pub proof fn law_listed_block_tags(tag: String, children: Vec<DomNode>)
    requires
        ({
            let t = tag@;
            ||| t == "div"@
            ||| t == "p"@
            ||| t == "h1"@
            ||| t == "h2"@
            ||| t == "h3"@
            ||| t == "h4"@
            ||| t == "h5"@
            ||| t == "h6"@
            ||| t == "li"@
            ||| t == "tr"@
            ||| t == "br"@
            ||| t == "hr"@
            ||| t == "blockquote"@
            ||| t == "pre"@
            ||| t == "section"@
            ||| t == "article"@
            ||| t == "header"@
            ||| t == "footer"@
            ||| t == "nav"@
            ||| t == "main"@
            ||| t == "aside"@
            ||| t == "figure"@
            ||| t == "figcaption"@
            ||| t == "table"@
            ||| t == "thead"@
            ||| t == "tbody"@
            ||| t == "tfoot"@
            ||| t == "dl"@
            ||| t == "dt"@
            ||| t == "dd"@
            ||| t == "ul"@
            ||| t == "ol"@
        }),
    ensures
        readable_text(DomNode::Element { tag, children }) == seq!['\n'] + readable_text_of_all(
            children@,
        ) + seq!['\n'],
        tag@ == "br"@ && children@.len() == 0 ==> readable_text(DomNode::Element { tag, children })
            == seq!['\n', '\n'],
{
    reveal_strlit("div");
    assert("div"@ =~= seq!['d', 'i', 'v']);
    reveal_strlit("p");
    assert("p"@ =~= seq!['p']);
    reveal_strlit("h1");
    assert("h1"@ =~= seq!['h', '1']);
    reveal_strlit("h2");
    assert("h2"@ =~= seq!['h', '2']);
    reveal_strlit("h3");
    assert("h3"@ =~= seq!['h', '3']);
    reveal_strlit("h4");
    assert("h4"@ =~= seq!['h', '4']);
    reveal_strlit("h5");
    assert("h5"@ =~= seq!['h', '5']);
    reveal_strlit("h6");
    assert("h6"@ =~= seq!['h', '6']);
    reveal_strlit("li");
    assert("li"@ =~= seq!['l', 'i']);
    reveal_strlit("tr");
    assert("tr"@ =~= seq!['t', 'r']);
    reveal_strlit("br");
    assert("br"@ =~= seq!['b', 'r']);
    reveal_strlit("hr");
    assert("hr"@ =~= seq!['h', 'r']);
    reveal_strlit("blockquote");
    assert("blockquote"@ =~= seq!['b', 'l', 'o', 'c', 'k', 'q', 'u', 'o', 't', 'e']);
    reveal_strlit("pre");
    assert("pre"@ =~= seq!['p', 'r', 'e']);
    reveal_strlit("section");
    assert("section"@ =~= seq!['s', 'e', 'c', 't', 'i', 'o', 'n']);
    reveal_strlit("article");
    assert("article"@ =~= seq!['a', 'r', 't', 'i', 'c', 'l', 'e']);
    reveal_strlit("header");
    assert("header"@ =~= seq!['h', 'e', 'a', 'd', 'e', 'r']);
    reveal_strlit("footer");
    assert("footer"@ =~= seq!['f', 'o', 'o', 't', 'e', 'r']);
    reveal_strlit("nav");
    assert("nav"@ =~= seq!['n', 'a', 'v']);
    reveal_strlit("main");
    assert("main"@ =~= seq!['m', 'a', 'i', 'n']);
    reveal_strlit("aside");
    assert("aside"@ =~= seq!['a', 's', 'i', 'd', 'e']);
    reveal_strlit("figure");
    assert("figure"@ =~= seq!['f', 'i', 'g', 'u', 'r', 'e']);
    reveal_strlit("figcaption");
    assert("figcaption"@ =~= seq!['f', 'i', 'g', 'c', 'a', 'p', 't', 'i', 'o', 'n']);
    reveal_strlit("table");
    assert("table"@ =~= seq!['t', 'a', 'b', 'l', 'e']);
    reveal_strlit("thead");
    assert("thead"@ =~= seq!['t', 'h', 'e', 'a', 'd']);
    reveal_strlit("tbody");
    assert("tbody"@ =~= seq!['t', 'b', 'o', 'd', 'y']);
    reveal_strlit("tfoot");
    assert("tfoot"@ =~= seq!['t', 'f', 'o', 'o', 't']);
    reveal_strlit("dl");
    assert("dl"@ =~= seq!['d', 'l']);
    reveal_strlit("dt");
    assert("dt"@ =~= seq!['d', 't']);
    reveal_strlit("dd");
    assert("dd"@ =~= seq!['d', 'd']);
    reveal_strlit("ul");
    assert("ul"@ =~= seq!['u', 'l']);
    reveal_strlit("ol");
    assert("ol"@ =~= seq!['o', 'l']);
    reveal_strlit("script");
    assert("script"@ =~= seq!['s', 'c', 'r', 'i', 'p', 't']);
    reveal_strlit("style");
    assert("style"@ =~= seq!['s', 't', 'y', 'l', 'e']);
    assert(!is_skipped_tag(tag@)) by {
        if tag@ == "script"@ || tag@ == "style"@ {
            assert(tag@[0] == 's');
        }
    }
    assert(readable_text_of_all(Seq::<DomNode>::empty()) == Seq::<char>::empty());
    if tag@ == "br"@ && children@.len() == 0 {
        assert(children@ =~= Seq::<DomNode>::empty());
        assert(seq!['\n'] + Seq::<char>::empty() + seq!['\n'] =~= seq!['\n', '\n']);
    }
}

/// The readable text of a run of nodes is the texts of its parts, in order.
pub proof fn law_readable_text_concatenates(a: Seq<DomNode>, b: Seq<DomNode>)
    ensures
        readable_text_of_all(a + b) == readable_text_of_all(a) + readable_text_of_all(b),
    decreases b.len(),
{
    if b.len() == 0 {
        assert(a + b =~= a);
    } else {
        law_readable_text_concatenates(a, b.drop_last());
        assert((a + b).drop_last() =~= a + b.drop_last());
        assert((a + b).last() == b.last());
    }
}

/// Whether the characters `t` spell `name`.
fn tag_is(t: &Vec<char>, name: &str) -> (r: bool)
    ensures
        r == (t@ == name@),
{
    chars_equal(t, &to_chars(name))
}

/// Whether `tag` is `script` or `style`.
pub fn skipped_tag(tag: &str) -> (r: bool)
    ensures
        r == is_skipped_tag(tag@),
{
    let t = to_chars(tag);
    tag_is(&t, "script") || tag_is(&t, "style")
}

/// Whether `tag` is a block tag of the readable text.
pub fn block_tag(tag: &str) -> (r: bool)
    ensures
        r == is_block_tag(tag@),
{
    let t = to_chars(tag);
    tag_is(&t, "div") || tag_is(&t, "p") || tag_is(&t, "h1") || tag_is(&t, "h2") || tag_is(
        &t,
        "h3",
    ) || tag_is(&t, "h4") || tag_is(&t, "h5") || tag_is(&t, "h6") || tag_is(&t, "li")
        || tag_is(&t, "tr") || tag_is(&t, "br") || tag_is(&t, "hr") || tag_is(&t, "blockquote")
        || tag_is(&t, "pre") || tag_is(&t, "section") || tag_is(&t, "article") || tag_is(
        &t,
        "header",
    ) || tag_is(&t, "footer") || tag_is(&t, "nav") || tag_is(&t, "main") || tag_is(&t, "aside")
        || tag_is(&t, "figure") || tag_is(&t, "figcaption") || tag_is(&t, "table") || tag_is(
        &t,
        "thead",
    ) || tag_is(&t, "tbody") || tag_is(&t, "tfoot") || tag_is(&t, "dl") || tag_is(&t, "dt")
        || tag_is(&t, "dd") || tag_is(&t, "ul") || tag_is(&t, "ol")
}

/// Appends a line break to `out`.
fn push_newline(out: &mut String)
    ensures
        final(out)@ == old(out)@ + seq!['\n'],
{
    push_char(out, '\n');
    assert(out@ =~= old(out)@ + seq!['\n']);
}

/// The readable text of `node`: the trimmed data of its text nodes, in
/// document order, with `script` and `style` elements left out and a line
/// break before and after each block element.
pub fn extract_readable_text(node: &DomNode) -> (r: String)
    ensures
        r@ == readable_text(*node),
    decreases node,
{
    match node {
        DomNode::Text { contents } => trim_str(contents.as_str()),
        DomNode::Element { tag, children } => {
            if skipped_tag(tag.as_str()) {
                return String::new();
            }
            let block = block_tag(tag.as_str());
            let mut r = String::new();
            if block {
                push_newline(&mut r);
            }
            let ghost start = r@;
            let n = children.len();
            proof {
                assert(decreases_to!(*node => *children));
                assert forall|k: int| 0 <= k < n implies decreases_to!(*node => #[trigger] children@[k]) by {
                    assert(decreases_to!(*children => children@));
                    assert(decreases_to!(children@ => children@[k]));
                }
            }
            let mut i: usize = 0;
            while i < n
                invariant
                    i <= n == children.len(),
                    forall|k: int| 0 <= k < n ==> decreases_to!(*node => #[trigger] children@[k]),
                    r@ == start + readable_text_of_all(children@.take(i as int)),
                decreases n - i,
            {
                let part = extract_readable_text(&children[i]);
                assert(children@.take(i + 1).drop_last() =~= children@.take(i as int));
                r.append(part.as_str());
                i = i + 1;
            }
            assert(children@.take(n as int) =~= children@);
            if block {
                push_newline(&mut r);
            }
            r
        },
        DomNode::Other { children } => {
            let mut r = String::new();
            let n = children.len();
            proof {
                assert(decreases_to!(*node => *children));
                assert forall|k: int| 0 <= k < n implies decreases_to!(*node => #[trigger] children@[k]) by {
                    assert(decreases_to!(*children => children@));
                    assert(decreases_to!(children@ => children@[k]));
                }
            }
            let mut i: usize = 0;
            while i < n
                invariant
                    i <= n == children.len(),
                    forall|k: int| 0 <= k < n ==> decreases_to!(*node => #[trigger] children@[k]),
                    r@ == readable_text_of_all(children@.take(i as int)),
                decreases n - i,
            {
                let part = extract_readable_text(&children[i]);
                assert(children@.take(i + 1).drop_last() =~= children@.take(i as int));
                r.append(part.as_str());
                i = i + 1;
            }
            assert(children@.take(n as int) =~= children@);
            r
        },
    }
}


/// The text of a page as the `text` dumps print it: the trimmed readable
/// text of the body, or nothing where the page has no body.
pub open spec fn body_text(body: Option<DomNode>) -> Seq<char> {
    match body {
        Some(b) => trim(readable_text(b)),
        None => Seq::empty(),
    }
}

/// The text of a page's body (the `text` format of `fetch --dump` and
/// `extract --format`).
pub fn page_text(body: Option<&DomNode>) -> (r: String)
    ensures
        r@ == body_text(match body {
            Some(b) => Some(*b),
            None => None,
        }),
{
    match body {
        Some(b) => {
            let t = extract_readable_text(b);
            trim_str(t.as_str())
        },
        None => String::new(),
    }
}


/// The page text never starts or ends with white space.
pub proof fn law_page_text_is_trimmed(body: Option<DomNode>)
    ensures
        trim(body_text(body)) == body_text(body),
{
    match body {
        Some(b) => crate::text::lemma_trim_idempotent(readable_text(b)),
        None => {
            assert(trim_start(Seq::<char>::empty()) == Seq::<char>::empty());
            assert(trim_end(Seq::<char>::empty()) == Seq::<char>::empty());
        },
    }
}

} // verus!
