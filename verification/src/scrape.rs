//! The `scrape` command: the line protocol spoken with each worker process,
//! as a state machine from the session's state and what the worker did to
//! the next step, and the records and text lines of the results.

use vstd::prelude::*;
use crate::text::{decimal, push_decimal};

verus! {

/// Declares `serde_json::Error` for the JSON string wrapper's result.
#[verifier::external_type_specification]
#[verifier::external_body]
pub struct ExJsonError(serde_json::Error);

/// What `serde_json::to_string` gives for a string: the JSON string
/// literal that stands for it, quotes and escapes included.
pub uninterp spec fn json_string_literal(s: Seq<char>) -> Seq<char>;

/// `serde_json::to_string` on a `&str`. The serializer writes into a
/// `Vec<u8>`, which never fails, so the result is always `Ok`; its text is
/// named `json_string_literal` and not restated.
#[verifier::external_body]
fn json_string(s: &str) -> (r: Result<String, serde_json::Error>)
    ensures
        r is Ok,
        r matches Ok(t) ==> t@ == json_string_literal(s@),
{
    serde_json::to_string(s)
}

/// The command line that asks a worker to load `url`.
pub open spec fn navigate_command(url: Seq<char>) -> Seq<char> {
    "{\"cmd\":\"navigate\",\"url\":"@ + json_string_literal(url) + "}\n"@
}

/// The command line that asks a worker to evaluate `expression`.
pub open spec fn evaluate_command(expression: Seq<char>) -> Seq<char> {
    "{\"cmd\":\"evaluate\",\"expression\":"@ + json_string_literal(expression) + "}\n"@
}

/// The command line that asks a worker to exit.
pub open spec fn shutdown_command() -> Seq<char> {
    "{\"cmd\":\"shutdown\"}\n"@
}

/// A command line: `{"cmd":<cmd>,<key>:<json of value>}` and a line break.
fn command_line(head: &str, value: &str) -> (r: String)
    ensures
        r@ == head@ + json_string_literal(value@) + "}\n"@,
{
    let mut line = head.to_owned();
    match json_string(value) {
        Ok(t) => line.append(t.as_str()),
        Err(_) => {},
    }
    line.append("}\n");
    line
}

/// The line that asks a worker to load `url`.
pub fn navigate_line(url: &str) -> (r: String)
    ensures
        r@ == navigate_command(url@),
{
    command_line("{\"cmd\":\"navigate\",\"url\":", url)
}

/// The line that asks a worker to evaluate `expression`.
pub fn evaluate_line(expression: &str) -> (r: String)
    ensures
        r@ == evaluate_command(expression@),
{
    command_line("{\"cmd\":\"evaluate\",\"expression\":", expression)
}

/// The line that asks a worker to exit.
pub fn shutdown_line() -> (r: String)
    ensures
        r@ == shutdown_command(),
{
    "{\"cmd\":\"shutdown\"}\n".to_owned()
}

/// What a worker's reply line says, field by field; a line that is not
/// JSON reads as `{"ok": false}`.
pub struct WorkerReply {
    /// The `ok` field, where it is a boolean.
    pub ok: Option<bool>,
    /// The `error` field, where it is a string.
    pub error: Option<String>,
    /// The `result.title` field, where it is a string.
    pub title: Option<String>,
    /// The `result` field as compact JSON text, where it is present and not null.
    pub result: Option<String>,
}

/// How reading a reply line ended.
pub enum ReplyRead {
    /// A line was read.
    Line(WorkerReply),
    /// The worker's output ended or could not be read.
    Failed,
    /// No line came within the read timeout.
    TimedOut,
}

/// What happened since the session's last step.
pub enum WorkerEvent {
    /// The worker process was started with its pipes.
    Started,
    /// Writing and flushing the last command line succeeded or not.
    Sent(bool),
    /// Reading a reply ended so.
    Replied(ReplyRead),
    /// The shutdown line was written and the worker waited for.
    ShutDown,
    /// The per-worker time limit ran out.
    Expired,
}

/// How a worker's page came out.
pub enum ScrapeOutcome {
    /// The page loaded: its title and the JSON text of the evaluated
    /// expression (`None` for null or no expression).
    Done { title: String, eval: Option<String> },
    /// The page failed, with this message; the worker is to be killed.
    Failed(String),
}

/// What to do next.
pub enum WorkerAction {
    /// Write this line to the worker and flush it.
    Send(String),
    /// Read one reply line, within the read timeout.
    Read,
    /// Write this line, ignoring failure, and wait for the worker to exit.
    ShutDown(String),
    /// The session is over.
    Finish(ScrapeOutcome),
}

/// Where a worker session stands.
pub enum WorkerSession {
    Starting,
    NavigateSent,
    AwaitingNavigation,
    EvaluateSent { title: String },
    AwaitingEvaluation { title: String },
    ShuttingDown { title: String, eval: Option<String> },
    Finished,
}

/// Whether `event` can come in state `s`: each action is answered by its
/// own event, and the time limit can run out at any step before the end.
pub open spec fn accepts(s: WorkerSession, event: WorkerEvent) -> bool {
    match event {
        WorkerEvent::Expired => !(s is Finished),
        WorkerEvent::Started => s is Starting,
        WorkerEvent::Sent(_) => s is NavigateSent || s is EvaluateSent,
        WorkerEvent::Replied(_) => s is AwaitingNavigation || s is AwaitingEvaluation,
        WorkerEvent::ShutDown => s is ShuttingDown,
    }
}

/// Whether state `s` accepts `event`.
pub fn session_accepts(s: &WorkerSession, event: &WorkerEvent) -> (r: bool)
    ensures
        r == accepts(*s, *event),
{
    match event {
        WorkerEvent::Expired => !matches!(s, WorkerSession::Finished),
        WorkerEvent::Started => matches!(s, WorkerSession::Starting),
        WorkerEvent::Sent(_) => matches!(s, WorkerSession::NavigateSent) || matches!(s, WorkerSession::EvaluateSent { .. }),
        WorkerEvent::Replied(_) => matches!(s, WorkerSession::AwaitingNavigation) || matches!(s, WorkerSession::AwaitingEvaluation { .. }),
        WorkerEvent::ShutDown => matches!(s, WorkerSession::ShuttingDown { .. }),
    }
}

/// `a` writes the line `line`.
pub open spec fn sends(a: WorkerAction, line: Seq<char>) -> bool {
    a matches WorkerAction::Send(l) && l@ == line
}

/// `a` ends the session with the failure `msg`.
pub open spec fn fails_with(a: WorkerAction, msg: Seq<char>) -> bool {
    a matches WorkerAction::Finish(ScrapeOutcome::Failed(m)) && m@ == msg
}

/// The message of a failed read.
pub open spec fn read_failure(r: ReplyRead) -> Seq<char> {
    match r {
        ReplyRead::TimedOut => "timeout"@,
        _ => "Read failed"@,
    }
}

/// Whether a navigation reply reports success (`ok` is `true`).
pub open spec fn navigation_ok(r: WorkerReply) -> bool {
    r.ok == Some(true)
}

/// The message of a failed navigation: the reply's `error`, else a default.
pub open spec fn navigation_error(r: WorkerReply) -> Seq<char> {
    match r.error {
        Some(e) => e@,
        None => "navigate failed"@,
    }
}

/// The page title a navigation reply reports (empty where it has none).
pub open spec fn reply_title(r: WorkerReply) -> Seq<char> {
    match r.title {
        Some(t) => t@,
        None => Seq::empty(),
    }
}

/// The view of an optional string.
pub open spec fn opt_view(o: Option<String>) -> Option<Seq<char>> {
    match o {
        Some(s) => Some(s@),
        None => None,
    }
}

/// `a` writes the shutdown line.
pub open spec fn shuts_down(a: WorkerAction) -> bool {
    a matches WorkerAction::ShutDown(l) && l@ == shutdown_command()
}

/// `s2` is shutting down the worker, keeping `title` and `eval`.
pub open spec fn shutting_down_with(s2: WorkerSession, title: Seq<char>, eval: Option<Seq<char>>) -> bool {
    s2 matches WorkerSession::ShuttingDown { title: t, eval: v } && t@ == title && opt_view(v) == eval
}

/// `s2` has sent the evaluation command for a page titled `title`.
pub open spec fn evaluation_sent_with(s2: WorkerSession, title: Seq<char>) -> bool {
    s2 matches WorkerSession::EvaluateSent { title: t } && t@ == title
}

/// `s2` awaits the evaluation reply for a page titled `title`.
pub open spec fn awaiting_evaluation_with(s2: WorkerSession, title: Seq<char>) -> bool {
    s2 matches WorkerSession::AwaitingEvaluation { title: t } && t@ == title
}

/// `a` ends the session with success, the page titled `title` and the
/// evaluation result `eval`.
pub open spec fn succeeds_with(a: WorkerAction, title: Seq<char>, eval: Option<Seq<char>>) -> bool {
    a matches WorkerAction::Finish(ScrapeOutcome::Done { title: t, eval: v }) && t@ == title
        && opt_view(v) == eval
}

/// After a page titled `title` loaded: evaluate the expression where there
/// is one, else shut the worker down.
pub open spec fn after_navigation(
    title: Seq<char>,
    eval: Option<Seq<char>>,
    s2: WorkerSession,
    a: WorkerAction,
) -> bool {
    match eval {
        Some(e) => evaluation_sent_with(s2, title) && sends(a, evaluate_command(e)),
        None => shutting_down_with(s2, title, None) && shuts_down(a),
    }
}

/// The session protocol: from state `s`, on `event`, for page `url` and
/// optional expression `eval`, the session moves to `s2` and does `a`.
pub open spec fn steps_to(
    s: WorkerSession,
    event: WorkerEvent,
    url: Seq<char>,
    eval: Option<Seq<char>>,
    s2: WorkerSession,
    a: WorkerAction,
) -> bool {
    match event {
        WorkerEvent::Expired => s2 is Finished && fails_with(a, "timeout"@),
        WorkerEvent::Started => s2 is NavigateSent && sends(a, navigate_command(url)),
        WorkerEvent::Sent(ok) => if !ok {
            s2 is Finished && fails_with(a, "Write failed"@)
        } else {
            match s {
                WorkerSession::EvaluateSent { title } => awaiting_evaluation_with(s2, title@)
                    && a is Read,
                _ => s2 is AwaitingNavigation && a is Read,
            }
        },
        WorkerEvent::Replied(read) => match read {
            ReplyRead::Line(reply) => match s {
                WorkerSession::AwaitingEvaluation { title } => shutting_down_with(
                    s2,
                    title@,
                    opt_view(reply.result),
                ) && shuts_down(a),
                _ => if navigation_ok(reply) {
                    after_navigation(reply_title(reply), eval, s2, a)
                } else {
                    s2 is Finished && fails_with(a, navigation_error(reply))
                },
            },
            _ => s2 is Finished && fails_with(a, read_failure(read)),
        },
        WorkerEvent::ShutDown => s2 is Finished && match s {
            WorkerSession::ShuttingDown { title, eval: v } => succeeds_with(a, title@, opt_view(v)),
            _ => false,
        },
    }
}

/// A session ends exactly when it finishes: a step finishes the session if
/// and only if it moves to the finished state, and a finished session
/// takes no further event.
pub proof fn law_finish_is_final(
    s: WorkerSession,
    event: WorkerEvent,
    url: Seq<char>,
    eval: Option<Seq<char>>,
    s2: WorkerSession,
    a: WorkerAction,
)
    requires
        accepts(s, event),
        steps_to(s, event, url, eval, s2, a),
    ensures
        (a is Finish) <==> (s2 is Finished),
        forall|e: WorkerEvent| !accepts(WorkerSession::Finished, e),
{
}

/// A page is reported done only after its worker was told to shut down.
pub proof fn law_done_only_after_shutdown(
    s: WorkerSession,
    event: WorkerEvent,
    url: Seq<char>,
    eval: Option<Seq<char>>,
    s2: WorkerSession,
    a: WorkerAction,
)
    requires
        accepts(s, event),
        steps_to(s, event, url, eval, s2, a),
        a matches WorkerAction::Finish(ScrapeOutcome::Done { .. }),
    ensures
        s is ShuttingDown,
        event is ShutDown,
{
}

/// A session starts by asking for the page, and a navigation reply that
/// is not `ok` ends it with the reply's error.
pub proof fn law_navigation_first_and_checked(
    s: WorkerSession,
    event: WorkerEvent,
    url: Seq<char>,
    eval: Option<Seq<char>>,
    s2: WorkerSession,
    a: WorkerAction,
)
    requires
        accepts(s, event),
        steps_to(s, event, url, eval, s2, a),
    ensures
        s is Starting && event is Started ==> sends(a, navigate_command(url)),
        event matches WorkerEvent::Replied(ReplyRead::Line(r)) ==> (s is AwaitingNavigation
            && !navigation_ok(r) ==> fails_with(a, navigation_error(r))),
{
}

/// Without an expression, a page whose navigation succeeded is reported
/// done with the title of the navigation reply (empty where it has none).
pub proof fn law_title_kept_without_expression(
    reply: WorkerReply,
    url: Seq<char>,
    s2: WorkerSession,
    a1: WorkerAction,
    s3: WorkerSession,
    a2: WorkerAction,
)
    requires
        reply.ok == Some(true),
        steps_to(
            WorkerSession::AwaitingNavigation,
            WorkerEvent::Replied(ReplyRead::Line(reply)),
            url,
            None,
            s2,
            a1,
        ),
    ensures
        accepts(s2, WorkerEvent::ShutDown),
        s2 matches WorkerSession::ShuttingDown { title: t, .. } && t@ == match reply.title {
            Some(rt) => rt@,
            None => Seq::<char>::empty(),
        },
        steps_to(s2, WorkerEvent::ShutDown, url, None, s3, a2) ==> (a2 matches WorkerAction::Finish(
            ScrapeOutcome::Done { title: t, eval: v },
        ) && v is None && t@ == match reply.title {
            Some(rt) => rt@,
            None => Seq::<char>::empty(),
        }),
{
}

/// With an expression, a page whose navigation succeeded is reported done
/// with the title of the navigation reply and the result of the
/// evaluation reply.
pub proof fn law_title_kept_with_expression(
    reply: WorkerReply,
    eval_reply: WorkerReply,
    url: Seq<char>,
    expression: Seq<char>,
    s2: WorkerSession,
    a1: WorkerAction,
    s3: WorkerSession,
    a2: WorkerAction,
    s4: WorkerSession,
    a3: WorkerAction,
    s5: WorkerSession,
    a4: WorkerAction,
)
    requires
        reply.ok == Some(true),
        steps_to(
            WorkerSession::AwaitingNavigation,
            WorkerEvent::Replied(ReplyRead::Line(reply)),
            url,
            Some(expression),
            s2,
            a1,
        ),
        steps_to(s2, WorkerEvent::Sent(true), url, Some(expression), s3, a2),
        steps_to(s3, WorkerEvent::Replied(ReplyRead::Line(eval_reply)), url, Some(expression), s4, a3),
        steps_to(s4, WorkerEvent::ShutDown, url, Some(expression), s5, a4),
    ensures
        a4 matches WorkerAction::Finish(ScrapeOutcome::Done { title: t, eval: v }) && t@ == match reply.title {
            Some(rt) => rt@,
            None => Seq::<char>::empty(),
        } && opt_view(v) == opt_view(eval_reply.result),
{
}

fn failure(msg: &str) -> (r: (WorkerSession, WorkerAction))
    ensures
        r.0 is Finished,
        fails_with(r.1, msg@),
{
    (WorkerSession::Finished, WorkerAction::Finish(ScrapeOutcome::Failed(msg.to_owned())))
}

/// One step of a worker session: the next state and the action to take,
/// for the page `url` and the optional expression `eval`.
pub fn session_step(s: WorkerSession, event: WorkerEvent, url: &str, eval: Option<&str>) -> (r: (
    WorkerSession,
    WorkerAction,
))
    requires
        accepts(s, event),
    ensures
        steps_to(
            s,
            event,
            url@,
            match eval {
                Some(e) => Some(e@),
                None => None,
            },
            r.0,
            r.1,
        ),
{
    match event {
        WorkerEvent::Expired => failure("timeout"),
        WorkerEvent::Started => (WorkerSession::NavigateSent, WorkerAction::Send(navigate_line(url))),
        WorkerEvent::Sent(ok) => {
            if !ok {
                return failure("Write failed");
            }
            match s {
                WorkerSession::EvaluateSent { title } => (
                    WorkerSession::AwaitingEvaluation { title },
                    WorkerAction::Read,
                ),
                _ => (WorkerSession::AwaitingNavigation, WorkerAction::Read),
            }
        },
        WorkerEvent::Replied(read) => match read {
            ReplyRead::Line(reply) => match s {
                WorkerSession::AwaitingEvaluation { title } => (
                    WorkerSession::ShuttingDown { title, eval: reply.result },
                    WorkerAction::ShutDown(shutdown_line()),
                ),
                _ => {
                    let ok = match reply.ok {
                        Some(b) => b,
                        None => false,
                    };
                    if !ok {
                        let msg = match reply.error {
                            Some(e) => e,
                            None => "navigate failed".to_owned(),
                        };
                        return (
                            WorkerSession::Finished,
                            WorkerAction::Finish(ScrapeOutcome::Failed(msg)),
                        );
                    }
                    let title = match reply.title {
                        Some(t) => t,
                        None => String::new(),
                    };
                    match eval {
                        Some(e) => (
                            WorkerSession::EvaluateSent { title },
                            WorkerAction::Send(evaluate_line(e)),
                        ),
                        None => (
                            WorkerSession::ShuttingDown { title, eval: None },
                            WorkerAction::ShutDown(shutdown_line()),
                        ),
                    }
                },
            },
            ReplyRead::TimedOut => failure("timeout"),
            ReplyRead::Failed => failure("Read failed"),
        },
        WorkerEvent::ShutDown => match s {
            WorkerSession::ShuttingDown { title, eval: v } => (
                WorkerSession::Finished,
                WorkerAction::Finish(ScrapeOutcome::Done { title, eval: v }),
            ),
            _ => failure("timeout"),
        },
    }
}


/// The read timeout of each reply: the worker timeout, at most 30 seconds.
pub fn read_timeout_secs(worker_timeout_secs: u64) -> (r: u64)
    ensures
        r == if worker_timeout_secs < 30 { worker_timeout_secs } else { 30 },
{
    if worker_timeout_secs < 30 {
        worker_timeout_secs
    } else {
        30
    }
}

/// One entry of the scrape results; absent fields are left out of its JSON
/// object.
pub struct ScrapeRecord {
    /// The page's URL.
    pub url: Option<String>,
    /// The page's title (successes only).
    pub title: Option<String>,
    /// Whether the record has an `eval` field (successes only).
    pub has_eval: bool,
    /// The JSON text of `eval`, `None` for null.
    pub eval: Option<String>,
    /// The failure message.
    pub error: Option<String>,
    /// Milliseconds the page took.
    pub time_ms: Option<u64>,
    /// The index of the page among the URLs (successes only).
    pub worker: Option<u64>,
}

/// The record of a page whose session ended with `outcome` after `time_ms`
/// milliseconds, for the `index`-th URL.
pub fn outcome_record(url: String, outcome: ScrapeOutcome, time_ms: u64, index: u64) -> (r: ScrapeRecord)
    ensures
        r.url == Some(url),
        r.time_ms == Some(time_ms),
        match outcome {
            ScrapeOutcome::Done { title, eval } => r.title == Some(title) && r.has_eval && r.eval
                == eval && r.error is None && r.worker == Some(index),
            ScrapeOutcome::Failed(m) => r.title is None && !r.has_eval && r.eval is None
                && r.error == Some(m) && r.worker is None,
        },
{
    match outcome {
        ScrapeOutcome::Done { title, eval } => ScrapeRecord {
            url: Some(url),
            title: Some(title),
            has_eval: true,
            eval,
            error: None,
            time_ms: Some(time_ms),
            worker: Some(index),
        },
        ScrapeOutcome::Failed(m) => ScrapeRecord {
            url: Some(url),
            title: None,
            has_eval: false,
            eval: None,
            error: Some(m),
            time_ms: Some(time_ms),
            worker: None,
        },
    }
}

/// The record of a page whose worker could not be set up: `prefix` says
/// what failed and `detail`, where given, why.
pub fn setup_failure_record(url: String, prefix: &str, detail: &str, time_ms: u64) -> (r: ScrapeRecord)
    ensures
        r.url == Some(url),
        r.title is None,
        !r.has_eval,
        r.eval is None,
        r.error matches Some(e) && e@ == prefix@ + detail@,
        r.time_ms == Some(time_ms),
        r.worker is None,
{
    let mut e = prefix.to_owned();
    e.append(detail);
    ScrapeRecord {
        url: Some(url),
        title: None,
        has_eval: false,
        eval: None,
        error: Some(e),
        time_ms: Some(time_ms),
        worker: None,
    }
}

/// The record of a page whose task itself failed, with that message only.
pub fn task_failure_record(message: String) -> (r: ScrapeRecord)
    ensures
        r.url is None,
        r.title is None,
        !r.has_eval,
        r.eval is None,
        r.error == Some(message),
        r.time_ms is None,
        r.worker is None,
{
    ScrapeRecord {
        url: None,
        title: None,
        has_eval: false,
        eval: None,
        error: Some(message),
        time_ms: None,
        worker: None,
    }
}

/// The text-format line of a record: `<time>ms`, the URL (`?` where it has
/// none) and, after tabs, the JSON text of `eval` where it is not null,
/// else the title (empty where it has none).
pub open spec fn record_line(r: ScrapeRecord) -> Seq<char> {
    let time = match r.time_ms {
        Some(t) => t,
        None => 0,
    };
    let url = match r.url {
        Some(u) => u@,
        None => "?"@,
    };
    let last = match r.eval {
        Some(e) => e@,
        None => match r.title {
            Some(t) => t@,
            None => Seq::empty(),
        },
    };
    decimal(time as nat) + "ms\t"@ + url + "\t"@ + last
}

/// The text-format line of a record.
pub fn record_text_line(r: &ScrapeRecord) -> (line: String)
    ensures
        line@ == record_line(*r),
{
    let mut line = String::new();
    let time = match r.time_ms {
        Some(t) => t,
        None => 0,
    };
    push_decimal(&mut line, time);
    line.append("ms\t");
    match &r.url {
        Some(u) => line.append(u.as_str()),
        None => line.append("?"),
    }
    line.append("\t");
    match &r.eval {
        Some(e) => line.append(e.as_str()),
        None => match &r.title {
            Some(t) => line.append(t.as_str()),
            None => {},
        },
    }
    line
}

/// The closing line of the text format: total time, number of URLs and
/// concurrency.
pub open spec fn summary_line(total_ms: u64, urls: u64, concurrency: u64) -> Seq<char> {
    "\nTotal: "@ + decimal(total_ms as nat) + "ms for "@ + decimal(urls as nat) + " URLs ("@
        + decimal(concurrency as nat) + " concurrent)"@
}

/// The closing line of the text format.
pub fn scrape_summary_line(total_ms: u64, urls: u64, concurrency: u64) -> (r: String)
    ensures
        r@ == summary_line(total_ms, urls, concurrency),
{
    let mut r = "\nTotal: ".to_owned();
    push_decimal(&mut r, total_ms);
    r.append("ms for ");
    push_decimal(&mut r, urls);
    r.append(" URLs (");
    push_decimal(&mut r, concurrency);
    r.append(" concurrent)");
    r
}

} // verus!
