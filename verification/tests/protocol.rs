use kloakt::fetch::{banner_text, html_dump_text, selector_poll_interval_ms, selector_wait_step, WaitStep};
use kloakt::scrape::{
    evaluate_line, navigate_line, outcome_record, read_timeout_secs, record_text_line,
    scrape_summary_line, session_accepts, session_step, setup_failure_record, shutdown_line,
    task_failure_record, ReplyRead, ScrapeOutcome, WorkerAction, WorkerEvent, WorkerReply,
    WorkerSession,
};
use kloakt::serve::{is_get_request, mentions_json, worker_command_args, worker_ports, RoundRobin};

fn reply(ok: Option<bool>, error: Option<&str>, title: Option<&str>, result: Option<&str>) -> WorkerReply {
    WorkerReply {
        ok,
        error: error.map(|s| s.to_string()),
        title: title.map(|s| s.to_string()),
        result: result.map(|s| s.to_string()),
    }
}

fn failed_with(a: &WorkerAction) -> Option<String> {
    match a {
        WorkerAction::Finish(ScrapeOutcome::Failed(m)) => Some(m.clone()),
        _ => None,
    }
}

#[test]
fn command_lines_are_json() {
    assert_eq!(navigate_line("https://a.com/?q=\"1\""), "{\"cmd\":\"navigate\",\"url\":\"https://a.com/?q=\\\"1\\\"\"}\n");
    assert_eq!(evaluate_line("document.title"), "{\"cmd\":\"evaluate\",\"expression\":\"document.title\"}\n");
    assert_eq!(shutdown_line(), "{\"cmd\":\"shutdown\"}\n");
}

#[test]
fn successful_session_with_expression() {
    let url = "https://a.com";
    let eval = Some("document.title");
    let (s, a) = session_step(WorkerSession::Starting, WorkerEvent::Started, url, eval);
    assert!(matches!(&a, WorkerAction::Send(l) if l == "{\"cmd\":\"navigate\",\"url\":\"https://a.com\"}\n"));
    let (s, a) = session_step(s, WorkerEvent::Sent(true), url, eval);
    assert!(matches!(a, WorkerAction::Read));
    let r = reply(Some(true), None, Some("A"), Some("{\"title\":\"A\"}"));
    let (s, a) = session_step(s, WorkerEvent::Replied(ReplyRead::Line(r)), url, eval);
    assert!(matches!(&a, WorkerAction::Send(l) if l.contains("\"evaluate\"")));
    let (s, a) = session_step(s, WorkerEvent::Sent(true), url, eval);
    assert!(matches!(a, WorkerAction::Read));
    let r = reply(Some(true), None, None, Some("\"A\""));
    let (s, a) = session_step(s, WorkerEvent::Replied(ReplyRead::Line(r)), url, eval);
    assert!(matches!(&a, WorkerAction::ShutDown(l) if l == "{\"cmd\":\"shutdown\"}\n"));
    assert!(session_accepts(&s, &WorkerEvent::ShutDown));
    let (s, a) = session_step(s, WorkerEvent::ShutDown, url, eval);
    assert!(matches!(s, WorkerSession::Finished));
    match a {
        WorkerAction::Finish(ScrapeOutcome::Done { title, eval }) => {
            assert_eq!(title, "A");
            assert_eq!(eval, Some("\"A\"".to_string()));
        }
        _ => panic!("expected success"),
    }
    assert!(!session_accepts(&WorkerSession::Finished, &WorkerEvent::Expired));
}

#[test]
fn session_without_expression_shuts_down_after_navigation() {
    let (s, _) = session_step(WorkerSession::Starting, WorkerEvent::Started, "u", None);
    let (s, _) = session_step(s, WorkerEvent::Sent(true), "u", None);
    let (s, a) = session_step(s, WorkerEvent::Replied(ReplyRead::Line(reply(Some(true), None, None, None))), "u", None);
    assert!(matches!(a, WorkerAction::ShutDown(_)));
    let (_, a) = session_step(s, WorkerEvent::ShutDown, "u", None);
    match a {
        WorkerAction::Finish(ScrapeOutcome::Done { title, eval }) => {
            assert_eq!(title, "");
            assert_eq!(eval, None);
        }
        _ => panic!("expected success"),
    }
}

#[test]
fn session_failures() {
    let (s, _) = session_step(WorkerSession::Starting, WorkerEvent::Started, "u", None);
    let (_, a) = session_step(s, WorkerEvent::Sent(false), "u", None);
    assert_eq!(failed_with(&a), Some("Write failed".to_string()));

    let (s, _) = session_step(WorkerSession::Starting, WorkerEvent::Started, "u", None);
    let (s, _) = session_step(s, WorkerEvent::Sent(true), "u", None);
    assert!(session_accepts(&s, &WorkerEvent::Replied(ReplyRead::Failed)));
    let (_, a) = session_step(s, WorkerEvent::Replied(ReplyRead::Failed), "u", None);
    assert_eq!(failed_with(&a), Some("Read failed".to_string()));

    let (_, a) = session_step(WorkerSession::AwaitingNavigation, WorkerEvent::Replied(ReplyRead::TimedOut), "u", None);
    assert_eq!(failed_with(&a), Some("timeout".to_string()));

    let r = reply(Some(false), Some("net::ERR"), None, None);
    let (s, a) = session_step(WorkerSession::AwaitingNavigation, WorkerEvent::Replied(ReplyRead::Line(r)), "u", None);
    assert_eq!(failed_with(&a), Some("net::ERR".to_string()));
    assert!(matches!(s, WorkerSession::Finished));

    let r = reply(None, None, Some("T"), None);
    let (_, a) = session_step(WorkerSession::AwaitingNavigation, WorkerEvent::Replied(ReplyRead::Line(r)), "u", None);
    assert_eq!(failed_with(&a), Some("navigate failed".to_string()));

    let (_, a) = session_step(WorkerSession::AwaitingEvaluation { title: "t".to_string() }, WorkerEvent::Expired, "u", None);
    assert_eq!(failed_with(&a), Some("timeout".to_string()));
    assert!(!session_accepts(&WorkerSession::Starting, &WorkerEvent::ShutDown));
}

#[test]
fn record_lines() {
    let ok = outcome_record("https://a".to_string(), ScrapeOutcome::Done { title: "A".to_string(), eval: None }, 12, 0);
    assert_eq!(record_text_line(&ok), "12ms\thttps://a\tA");
    let with_eval = outcome_record("https://a".to_string(), ScrapeOutcome::Done { title: "A".to_string(), eval: Some("\"x\"".to_string()) }, 3, 1);
    assert_eq!(record_text_line(&with_eval), "3ms\thttps://a\t\"x\"");
    assert_eq!(with_eval.worker, Some(1));
    let bad = outcome_record("https://b".to_string(), ScrapeOutcome::Failed("timeout".to_string()), 60000, 2);
    assert_eq!(record_text_line(&bad), "60000ms\thttps://b\t");
    assert_eq!(bad.error, Some("timeout".to_string()));
    let spawn = setup_failure_record("u".to_string(), "Failed to spawn worker: ", "no such file", 0);
    assert_eq!(spawn.error, Some("Failed to spawn worker: no such file".to_string()));
    let task = task_failure_record("panicked".to_string());
    assert_eq!(record_text_line(&task), "0ms\t?\t");
    assert_eq!(scrape_summary_line(1500, 3, 10), "\nTotal: 1500ms for 3 URLs (10 concurrent)");
}

#[test]
fn read_timeout_is_capped() {
    assert_eq!(read_timeout_secs(60), 30);
    assert_eq!(read_timeout_secs(5), 5);
}

#[test]
fn worker_ports_and_args() {
    assert_eq!(worker_ports(9222, 3), vec![9223, 9224, 9225]);
    assert_eq!(
        worker_command_args(9223, Some("socks5://p:1"), true),
        vec!["serve", "--port", "9223", "--proxy", "socks5://p:1", "--stealth"]
    );
    assert_eq!(worker_command_args(9224, None, false), vec!["serve", "--port", "9224"]);
}

#[test]
fn round_robin_cycles_through_workers() {
    let mut rr = RoundRobin::new(9222, 3);
    let ports: Vec<u16> = (0..7).map(|_| rr.route()).collect();
    assert_eq!(ports, vec![9223, 9224, 9225, 9223, 9224, 9225, 9223]);
    let mut wrap = RoundRobin { port: 100, workers: 3, next: u16::MAX };
    assert_eq!(wrap.route(), 100 + 1 + (u16::MAX % 3));
    assert_eq!(wrap.next, 0);
}

#[test]
fn json_requests_are_recognised() {
    assert!(is_get_request(b"GET "));
    assert!(!is_get_request(b"POST"));
    assert!(!is_get_request(&[b'G', b'E', 0, 0]));
    assert!(mentions_json(b"GET /json/version HTTP/1.1\r\n"));
    assert!(!mentions_json(b"GET /devtools/browser HTTP/1.1\r\n"));
    assert!(!mentions_json(b"/jso"));
    assert!(mentions_json(b"/json"));
}

#[test]
fn selector_wait_decisions() {
    assert!(matches!(selector_wait_step(true, true), WaitStep::Found));
    assert!(matches!(selector_wait_step(false, true), WaitStep::GiveUp));
    assert!(matches!(selector_wait_step(false, false), WaitStep::Sleep));
    assert_eq!(selector_poll_interval_ms(), 100);
}

#[test]
fn html_dumps() {
    assert_eq!(html_dump_text(Some("<html></html>"), "ignored"), "<!DOCTYPE html>\n<html></html>\n");
    assert_eq!(html_dump_text(None, "<p>x</p>"), "<p>x</p>\n");
}

#[test]
fn banner_names_the_port() {
    let b = banner_text(9222);
    assert!(b.starts_with("\n  _  ___"));
    assert!(b.ends_with("  CDP server: ws://127.0.0.1:9222/devtools/browser\n"));
    assert!(b.contains(" |_|\\_\\_|\\___/ \\__,_|_|\\_\\\\__|\n"));
}
