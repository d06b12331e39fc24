use screenshot_triage::apply::{ApplyAction, ApplyMachine, ApplyPhase};
use screenshot_triage::pipeline::Dispatcher;
use screenshot_triage::classify::ProviderResponse;
use screenshot_triage::refine::{check_refine_size, conclude_refine, RefineError};
use screenshot_triage::scan::Candidate;

fn response(status: u16, body: &str) -> ProviderResponse {
    ProviderResponse { status, body: body.to_string() }
}

#[test]
fn missing_source_fails_without_any_mutation() {
    let mut m = ApplyMachine::new();
    assert_eq!(m.next_action(), Some(ApplyAction::StatSource));
    m.source_checked(false);
    assert_eq!(m.next_action(), None);
    assert_eq!(m.phase, ApplyPhase::Failed);
    let e = m.error.expect("an error is recorded");
    assert_eq!(e.message(), "Source file no longer exists");
}

#[test]
fn dir_failure_stops_before_the_move() {
    let mut m = ApplyMachine::new();
    m.source_checked(true);
    assert_eq!(m.next_action(), Some(ApplyAction::CreateDirs));
    m.dirs_made(Err("permission denied".to_string()));
    assert_eq!(m.phase, ApplyPhase::Failed);
    assert_eq!(m.next_action(), None);
    assert!(!m.dirs_ok);
    let e = m.error.expect("an error is recorded");
    assert_eq!(e.message(), "permission denied");
}

#[test]
fn successful_apply_walks_check_dirs_move() {
    let mut m = ApplyMachine::new();
    m.source_checked(true);
    m.dirs_made(Ok(()));
    assert_eq!(m.next_action(), Some(ApplyAction::MoveFile));
    m.move_done(Ok(()));
    assert_eq!(m.phase, ApplyPhase::Succeeded);
    assert_eq!(m.next_action(), None);
    assert_eq!(m.success_message(), "Success");
}

#[test]
fn failed_move_reports_the_platform_error() {
    let mut m = ApplyMachine::new();
    m.source_checked(true);
    m.dirs_made(Ok(()));
    m.move_done(Err("cross-device link".to_string()));
    assert_eq!(m.phase, ApplyPhase::Failed);
    assert_eq!(m.error.expect("an error is recorded").message(), "cross-device link");
}

fn candidates(n: usize) -> Vec<Candidate> {
    (0..n)
        .map(|i| Candidate {
            path: format!("/s/Screenshot {i}.png"),
            name: format!("Screenshot {i}.png"),
            size: 100,
        })
        .collect()
}

#[test]
fn dispatcher_never_exceeds_its_limit() {
    let mut d = Dispatcher::new(candidates(5), 2);
    let mut started = 0;
    let a = d.try_start();
    assert!(a.is_some());
    let b = d.try_start();
    assert!(b.is_some());
    started += 2;
    assert_eq!(d.in_flight, 2);
    assert!(d.try_start().is_none());
    assert!(d.in_flight <= d.limit);

    let mut done = 0;
    while started < 5 || done < started {
        if d.in_flight > 0 {
            d.finish_one();
            done += 1;
        }
        if let Some(_c) = d.try_start() {
            started += 1;
        }
        assert!(d.in_flight <= d.limit);
    }
    assert_eq!(started, 5);
    assert_eq!(done, 5);
    assert!(d.try_start().is_none());
    assert_eq!(d.pending.len(), 0);
}

#[test]
fn dispatcher_hands_out_every_candidate_once() {
    let mut d = Dispatcher::new(candidates(3), 1);
    let mut seen: Vec<String> = Vec::new();
    while let Some(c) = d.try_start() {
        seen.push(c.name);
        d.finish_one();
    }
    seen.sort();
    assert_eq!(seen, vec!["Screenshot 0.png", "Screenshot 1.png", "Screenshot 2.png"]);
}

#[test]
fn refine_size_check_reports_a_distinct_error() {
    assert!(check_refine_size(5 * 1024 * 1024).is_ok());
    let e = check_refine_size(5 * 1024 * 1024 + 1).expect_err("oversize");
    assert!(matches!(e, RefineError::Oversize));
    assert_eq!(e.message(), "File exceeds 5MB limit");
    assert_eq!(RefineError::ReadFailed.message(), "Failed to read file");
    assert_eq!(
        RefineError::Transport("connection reset".to_string()).message(),
        "connection reset"
    );
}

#[test]
fn refine_concludes_with_id_and_subcategory() {
    let body = "{\"content\":[{\"type\":\"text\",\"text\":\"```json\\n{\\\"subcategory\\\":\\\"Receipts\\\"}\\n```\"}]}";
    let r = conclude_refine("Screenshot 2024.png", &response(200, body)).expect("should parse");
    assert_eq!(r.id, "Screenshot 2024.png");
    assert_eq!(r.subcategory, "Receipts");
}

#[test]
fn refine_fails_on_error_status_whatever_the_body() {
    let body = "{\"content\":[{\"type\":\"text\",\"text\":\"{\\\"subcategory\\\":\\\"Receipts\\\"}\"}]}";
    let e = conclude_refine("a.png", &response(500, body)).expect_err("non-2xx must fail");
    assert!(matches!(e, RefineError::Transport(_)));
    assert_eq!(e.message(), "Provider returned an error status");
}

#[test]
fn refine_never_returns_an_empty_subcategory() {
    let body = "{\"content\":[{\"type\":\"text\",\"text\":\"{\\\"subcategory\\\":\\\"\\\"}\"}]}";
    let e = conclude_refine("a.png", &response(200, body)).expect_err("empty subcategory is an error");
    assert!(matches!(e, RefineError::ParseFailed));
    assert_eq!(e.message(), "Failed to parse subcategory");

    let bad = conclude_refine("a.png", &response(200, "{\"no\":\"content\"}"))
        .expect_err("no text block");
    assert!(matches!(bad, RefineError::ParseFailed));
}
