//! The `fetch` and `serve` commands' own decisions: waiting for a selector,
//! what an HTML dump prints, and the start-up banner.

use vstd::prelude::*;
use crate::text::{decimal, push_decimal};

verus! {

/// What to do while waiting for a selector to match.
pub enum WaitStep {
    /// The selector matched: stop, found.
    Found,
    /// The deadline passed: stop, not found.
    GiveUp,
    /// Sleep for the poll interval and look again.
    Sleep,
}

/// The poll interval of the selector wait, in milliseconds.
pub fn selector_poll_interval_ms() -> (r: u64)
    ensures
        r == 100,
{
    100
}

/// One round of waiting for a selector: found wins over a passed deadline.
pub fn selector_wait_step(found: bool, deadline_passed: bool) -> (r: WaitStep)
    ensures
        found ==> r is Found,
        !found && deadline_passed ==> r is GiveUp,
        !found && !deadline_passed ==> r is Sleep,
{
    if found {
        WaitStep::Found
    } else if deadline_passed {
        WaitStep::GiveUp
    } else {
        WaitStep::Sleep
    }
}

/// What `fetch --dump html` prints: the `<html>` element's outer HTML after
/// a doctype line where the page has one, else the document's inner HTML.
pub open spec fn html_dump(html_outer: Option<Seq<char>>, document_inner: Seq<char>) -> Seq<char> {
    match html_outer {
        Some(h) => "<!DOCTYPE html>\n"@ + h + "\n"@,
        None => document_inner + "\n"@,
    }
}

/// The text of an HTML dump.
pub fn html_dump_text(html_outer: Option<&str>, document_inner: &str) -> (r: String)
    ensures
        r@ == html_dump(
            match html_outer {
                Some(h) => Some(h@),
                None => None,
            },
            document_inner@,
        ),
{
    match html_outer {
        Some(h) => {
            let mut r = "<!DOCTYPE html>\n".to_owned();
            r.append(h);
            r.append("\n");
            r
        },
        None => {
            let mut r = document_inner.to_owned();
            r.append("\n");
            r
        },
    }
}

/// The start-up banner's text before the port.
pub open spec fn banner_head() -> Seq<char> {
    "\n  _  ___             _    _\n | |/ / |           | |  | |\n | ' /| | ___   __ _| | _| |_\n |  < | |/ _ \\ / _` | |/ / __|\n | . \\| | (_) | (_| |   <| |_\n |_|\\_\\_|\\___/ \\__,_|_|\\_\\\\__|\n\n  Cloaked Headless Browser v0.2.0\n  CDP server: ws://127.0.0.1:"@
}

/// The start-up banner for a server on `port`, with its DevTools URL.
pub open spec fn banner(port: u16) -> Seq<char> {
    banner_head() + decimal(port as nat) + "/devtools/browser\n"@
}

/// The start-up banner for a server on `port`.
pub fn banner_text(port: u16) -> (r: String)
    ensures
        r@ == banner(port),
{
    let mut r = "\n  _  ___             _    _\n | |/ / |           | |  | |\n | ' /| | ___   __ _| | _| |_\n |  < | |/ _ \\ / _` | |/ / __|\n | . \\| | (_) | (_| |   <| |_\n |_|\\_\\_|\\___/ \\__,_|_|\\_\\\\__|\n\n  Cloaked Headless Browser v0.2.0\n  CDP server: ws://127.0.0.1:".to_owned();
    push_decimal(&mut r, port as u64);
    r.append("/devtools/browser\n");
    r
}

} // verus!
