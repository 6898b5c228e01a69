use loggy::groups::{list_all, GroupPage, LogGroup};
use loggy::reauth::{PollAction, ReauthPoll, DEFAULT_MAX_ATTEMPTS};

fn group(name: &str) -> LogGroup {
    LogGroup { name: name.to_string(), arn: None, stored_bytes: None }
}

fn group_page(names: &[&str], token: Option<&str>) -> GroupPage {
    GroupPage {
        groups: names.iter().map(|n| group(n)).collect(),
        next_token: token.map(|t| t.to_string()),
    }
}

#[test]
fn listing_concatenates_three_pages_in_order() {
    // cursor chain: first page hands out A, then B, then the terminal page
    let pages = vec![
        group_page(&["g1", "g2"], Some("A")),
        group_page(&["g3"], Some("B")),
        group_page(&["g4", "g5"], None),
    ];
    let out = list_all(pages);
    // exactly one request per page, terminal page included
    assert_eq!(out.pages_used, 3);
    let names: Vec<&str> = out.groups.iter().map(|g| g.name.as_str()).collect();
    assert_eq!(names, vec!["g1", "g2", "g3", "g4", "g5"]);
}

#[test]
fn listing_stops_at_first_terminal_page() {
    let pages = vec![
        group_page(&["g1"], None),
        group_page(&["never requested"], None),
    ];
    let out = list_all(pages);
    assert_eq!(out.pages_used, 1);
    assert_eq!(out.groups.len(), 1);
    assert_eq!(out.groups[0].name, "g1");
}

#[test]
fn group_from_parts_defaults_missing_name() {
    let g = LogGroup::from_parts(None, Some("arn:x".to_string()), Some(9));
    assert_eq!(g.name, "");
    assert_eq!(g.arn, Some("arn:x".to_string()));
    assert_eq!(g.stored_bytes, Some(9));
}

#[test]
fn poll_emits_one_refresh_once_credentials_validate() {
    // invalid for the first three checks, then valid
    let mut checks = vec![false, false, false, true];
    checks.resize(DEFAULT_MAX_ATTEMPTS, false);
    let out = loggy::reauth::poll_run(&checks, DEFAULT_MAX_ATTEMPTS);
    // exactly one notification, and polling stops immediately after
    assert!(out.refreshed);
    assert_eq!(out.checks_made, 4);
}

#[test]
fn poll_exhausts_attempts_without_notification() {
    let checks = vec![false; DEFAULT_MAX_ATTEMPTS];
    let out = loggy::reauth::poll_run(&checks, DEFAULT_MAX_ATTEMPTS);
    assert!(!out.refreshed);
    assert_eq!(out.checks_made, DEFAULT_MAX_ATTEMPTS);
}

#[test]
fn poll_with_small_ceiling_checks_exactly_that_many_times() {
    let checks = vec![false, false, false, false, false];
    let out = loggy::reauth::poll_run(&checks, 3);
    assert!(!out.refreshed);
    assert_eq!(out.checks_made, 3);
}

#[test]
fn poll_step_transitions() {
    let mut p = ReauthPoll::start(2);
    assert_eq!(p.attempts_made, 0);
    assert!(!p.finished);
    let a1 = p.step(false);
    assert_eq!(a1, PollAction::KeepPolling);
    assert!(!p.finished);
    let a2 = p.step(false);
    assert_eq!(a2, PollAction::GiveUp);
    assert!(p.finished);
    assert!(!p.refreshed);
}

#[test]
fn poll_step_valid_verdict_finishes_at_once() {
    let mut p = ReauthPoll::start(5);
    let a = p.step(true);
    assert_eq!(a, PollAction::EmitRefreshed);
    assert!(p.finished);
    assert!(p.refreshed);
    assert_eq!(p.attempts_made, 1);
}
