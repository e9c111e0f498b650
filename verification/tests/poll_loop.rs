use reddit_news_relay::filter::FilterConfig;
use reddit_news_relay::model::T3;
use reddit_news_relay::poll::{
    status_is_success, Action, Delivery, Event, Phase, PollLoop, Screening, POLL_INTERVAL_SECS,
};
use reddit_news_relay::store::{claim_outcome, ClaimOutcome, InsertStatus};
use std::collections::HashSet;

const NOW: u64 = 1_700_000_000;

fn post(id: &str, score: i32, age: u64, url: Option<&str>) -> T3 {
    T3 {
        subreddit: "formula1".to_string(),
        selftext: String::new(),
        author_fullname: "t2_abc".to_string(),
        title: format!("title of {}", id),
        subreddit_name_prefixed: "r/formula1".to_string(),
        downs: 0,
        ups: score,
        score,
        thumbnail: String::new(),
        url: url.map(|u| u.to_string()),
        id: id.to_string(),
        author: "alice".to_string(),
        permalink: format!("/r/formula1/comments/{}/", id),
        domain: "example.com".to_string(),
        created_utc: NOW - age,
    }
}

fn insert(rows: &mut HashSet<String>, id: &str) -> InsertStatus {
    if rows.insert(id.to_string()) {
        InsertStatus::Inserted
    } else {
        InsertStatus::Rejected { unique_violation: true }
    }
}

/// Runs one successful cycle over `posts`; returns the identifiers of the
/// posts whose message was to be sent and the number of inserts made.
fn cycle(
    state: &mut PollLoop,
    rows: &mut HashSet<String>,
    posts: &[T3],
    config: &FilterConfig,
) -> (Vec<String>, usize) {
    assert_eq!(state.step(Event::Wake { cancelled: false }), Action::Fetch);
    assert_eq!(state.step(Event::Responded { status: 200 }), Action::Parse);
    assert_eq!(state.step(Event::Parsed { ok: true }), Action::Process);
    let mut sent = Vec::new();
    let mut inserts = 0;
    for p in posts {
        if state.screen(p, NOW, config) != Screening::Claim {
            continue;
        }
        inserts += 1;
        let outcome = claim_outcome(insert(rows, &p.id));
        if let Delivery::Send(message) = state.settle(p, outcome) {
            assert_eq!(message.embeds.len(), 1);
            assert_eq!(message.embeds[0].url, p.url);
            sent.push(p.id.clone());
        }
    }
    assert_eq!(
        state.step(Event::BatchDone),
        Action::Sleep { secs: POLL_INTERVAL_SECS }
    );
    assert_eq!(state.step(Event::Slept), Action::Observe);
    (sent, inserts)
}

#[test]
fn interval_is_sixty_seconds() {
    assert_eq!(POLL_INTERVAL_SECS, 60);
}

#[test]
fn new_loop_is_idle_in_its_first_cycle() {
    let state = PollLoop::new();
    assert_eq!(state.phase(), Phase::Idle);
    assert!(state.first_cycle());
    assert!(!state.is_known(&"1abcde".to_string()));
}

#[test]
fn a_cycle_walks_through_the_phases() {
    let mut state = PollLoop::new();
    assert_eq!(state.step(Event::Wake { cancelled: false }), Action::Fetch);
    assert_eq!(state.phase(), Phase::Fetching);
    assert_eq!(state.step(Event::Responded { status: 200 }), Action::Parse);
    assert_eq!(state.phase(), Phase::Parsing);
    assert_eq!(state.step(Event::Parsed { ok: true }), Action::Process);
    assert_eq!(state.phase(), Phase::PerPostProcessing);
    assert!(state.first_cycle());
    assert_eq!(state.step(Event::BatchDone), Action::Sleep { secs: 60 });
    assert_eq!(state.phase(), Phase::Sleeping);
    assert!(!state.first_cycle());
    assert_eq!(state.step(Event::Slept), Action::Observe);
    assert_eq!(state.phase(), Phase::Idle);
}

#[test]
fn cancellation_is_seen_when_an_iteration_begins() {
    let mut state = PollLoop::new();
    assert_eq!(state.step(Event::Wake { cancelled: true }), Action::Release);
    assert_eq!(state.phase(), Phase::Cancelling);
    assert_eq!(state.step(Event::Released), Action::Exit);
    assert_eq!(state.phase(), Phase::Stopped);
}

#[test]
fn stopped_loop_stays_stopped() {
    let mut state = PollLoop::new();
    state.step(Event::Wake { cancelled: true });
    state.step(Event::Released);
    assert_eq!(state.step(Event::Wake { cancelled: false }), Action::Exit);
    assert_eq!(state.step(Event::Slept), Action::Exit);
    assert_eq!(state.step(Event::BatchDone), Action::Exit);
    assert_eq!(state.phase(), Phase::Stopped);
}

#[test]
fn cancellation_does_not_interrupt_a_cycle() {
    let mut state = PollLoop::new();
    state.step(Event::Wake { cancelled: false });
    assert_eq!(state.step(Event::Wake { cancelled: true }), Action::Ignore);
    assert_eq!(state.phase(), Phase::Fetching);
    state.step(Event::Responded { status: 200 });
    state.step(Event::Parsed { ok: true });
    assert_eq!(state.step(Event::Wake { cancelled: true }), Action::Ignore);
    assert_eq!(state.phase(), Phase::PerPostProcessing);
    assert_eq!(state.step(Event::BatchDone), Action::Sleep { secs: 60 });
    assert_eq!(state.step(Event::Slept), Action::Observe);
    assert_eq!(state.step(Event::Wake { cancelled: true }), Action::Release);
}

#[test]
fn event_out_of_place_changes_nothing() {
    let mut state = PollLoop::new();
    assert_eq!(state.step(Event::BatchDone), Action::Ignore);
    assert_eq!(state.phase(), Phase::Idle);
    assert!(state.first_cycle());
    assert_eq!(state.step(Event::Responded { status: 200 }), Action::Ignore);
    assert_eq!(state.step(Event::Parsed { ok: true }), Action::Ignore);
    assert_eq!(state.step(Event::Slept), Action::Ignore);
    assert_eq!(state.step(Event::Released), Action::Ignore);
    assert_eq!(state.step(Event::FetchFailed), Action::Ignore);
    assert_eq!(state.phase(), Phase::Idle);
}

#[test]
fn failed_fetch_goes_straight_to_the_pause() {
    let mut state = PollLoop::new();
    state.step(Event::Wake { cancelled: false });
    assert_eq!(state.step(Event::FetchFailed), Action::Sleep { secs: 60 });
    assert_eq!(state.phase(), Phase::Sleeping);
    assert!(state.first_cycle());
}

#[test]
fn status_outside_success_goes_straight_to_the_pause() {
    for status in [199u16, 300, 304, 404, 429, 500, 503, 599, 0, u16::MAX] {
        let mut state = PollLoop::new();
        state.step(Event::Wake { cancelled: false });
        assert_eq!(state.step(Event::Responded { status }), Action::Sleep { secs: 60 });
        assert_eq!(state.phase(), Phase::Sleeping);
        assert!(state.first_cycle());
    }
}

#[test]
fn status_of_success_goes_on_to_parsing() {
    for status in [200u16, 204, 299] {
        let mut state = PollLoop::new();
        state.step(Event::Wake { cancelled: false });
        assert_eq!(state.step(Event::Responded { status }), Action::Parse);
        assert_eq!(state.phase(), Phase::Parsing);
    }
}

#[test]
fn undecodable_body_goes_straight_to_the_pause() {
    let mut state = PollLoop::new();
    state.step(Event::Wake { cancelled: false });
    state.step(Event::Responded { status: 200 });
    assert_eq!(state.step(Event::Parsed { ok: false }), Action::Sleep { secs: 60 });
    assert_eq!(state.phase(), Phase::Sleeping);
    assert!(state.first_cycle());
}

#[test]
fn screen_turns_down_what_the_filters_turn_down() {
    let state = PollLoop::new();
    let config = FilterConfig::standard();
    let good = post("a", 150, 3600, Some("https://example.com/a"));
    assert_eq!(state.screen(&good, NOW, &config), Screening::Claim);
    let low = post("a", 50, 3600, Some("https://example.com/a"));
    assert_eq!(state.screen(&low, NOW, &config), Screening::Rejected);
    let old = post("a", 150, 604801, Some("https://example.com/a"));
    assert_eq!(state.screen(&old, NOW, &config), Screening::Rejected);
    let bare = post("a", 150, 3600, None);
    assert_eq!(state.screen(&bare, NOW, &config), Screening::Rejected);
    let banned = post("a", 150, 3600, Some("https://redd.it/xyz"));
    assert_eq!(state.screen(&banned, NOW, &config), Screening::Rejected);
}

#[test]
fn settle_claimed_in_first_cycle_is_suppressed() {
    let mut state = PollLoop::new();
    let p = post("a", 150, 3600, Some("https://example.com/a"));
    assert!(matches!(state.settle(&p, ClaimOutcome::Claimed), Delivery::Suppressed));
    assert!(state.first_cycle());
    assert!(!state.is_known(&p.id));
}

#[test]
fn settle_already_exists_remembers_the_identifier() {
    let mut state = PollLoop::new();
    let config = FilterConfig::standard();
    let p = post("a", 150, 3600, Some("https://example.com/a"));
    assert!(matches!(state.settle(&p, ClaimOutcome::AlreadyExists), Delivery::Skip));
    assert!(state.is_known(&p.id));
    assert!(!state.is_known(&"b".to_string()));
    assert_eq!(state.screen(&p, NOW, &config), Screening::Known);
    let other = post("b", 150, 3600, Some("https://example.com/b"));
    assert_eq!(state.screen(&other, NOW, &config), Screening::Claim);
}

#[test]
fn settle_store_error_passes_the_post_over() {
    let mut state = PollLoop::new();
    let config = FilterConfig::standard();
    let p = post("a", 150, 3600, Some("https://example.com/a"));
    assert!(matches!(state.settle(&p, ClaimOutcome::StoreError), Delivery::Skip));
    assert!(!state.is_known(&p.id));
    assert_eq!(state.screen(&p, NOW, &config), Screening::Claim);
}

#[test]
fn settle_claimed_without_address_sends_nothing() {
    let mut state = PollLoop::new();
    let mut rows = HashSet::new();
    let config = FilterConfig::standard();
    cycle(&mut state, &mut rows, &[], &config);
    let p = post("a", 150, 3600, None);
    assert!(matches!(state.settle(&p, ClaimOutcome::Claimed), Delivery::Skip));
}

#[test]
fn known_post_that_fails_the_filters_is_rejected() {
    let mut state = PollLoop::new();
    let config = FilterConfig::standard();
    let p = post("a", 150, 3600, Some("https://example.com/a"));
    state.settle(&p, ClaimOutcome::AlreadyExists);
    let low = post("a", 50, 3600, Some("https://example.com/a"));
    assert_eq!(state.screen(&low, NOW, &config), Screening::Rejected);
}

#[test]
fn first_cycle_records_and_sends_nothing() {
    let mut state = PollLoop::new();
    let mut rows = HashSet::new();
    let config = FilterConfig::standard();
    let backlog = vec![
        post("a", 150, 3600, Some("https://example.com/a")),
        post("b", 300, 7200, Some("https://example.com/b")),
        post("c", 1000, 10, Some("https://example.com/c")),
    ];
    let (sent, inserts) = cycle(&mut state, &mut rows, &backlog, &config);
    assert!(sent.is_empty());
    assert_eq!(inserts, 3);
    assert!(rows.contains("a") && rows.contains("b") && rows.contains("c"));
    assert!(!state.first_cycle());
}

#[test]
fn second_cycle_sends_one_message_for_a_new_post() {
    let mut state = PollLoop::new();
    let mut rows = HashSet::new();
    let config = FilterConfig::standard();
    let backlog = vec![post("a", 150, 3600, Some("https://example.com/a"))];
    cycle(&mut state, &mut rows, &backlog, &config);
    let next = vec![
        post("a", 150, 3600, Some("https://example.com/a")),
        post("d", 150, 3600, Some("https://example.com/d")),
    ];
    let (sent, inserts) = cycle(&mut state, &mut rows, &next, &config);
    assert_eq!(sent, vec!["d".to_string()]);
    assert_eq!(inserts, 2);
    assert!(rows.contains("d"));
}

#[test]
fn failed_cycle_does_not_end_the_first_cycle() {
    let mut state = PollLoop::new();
    let mut rows = HashSet::new();
    let config = FilterConfig::standard();
    state.step(Event::Wake { cancelled: false });
    state.step(Event::FetchFailed);
    state.step(Event::Slept);
    assert!(state.first_cycle());
    let (sent, _) = cycle(
        &mut state,
        &mut rows,
        &[post("a", 150, 3600, Some("https://example.com/a"))],
        &config,
    );
    assert!(sent.is_empty());
    assert!(rows.contains("a"));
}

#[test]
fn scenario_new_post_is_claimed_and_delivered_once() {
    let mut state = PollLoop::new();
    let mut rows = HashSet::new();
    let config = FilterConfig::standard();
    cycle(&mut state, &mut rows, &[], &config);
    let p = post("1abcde", 150, 3600, Some("https://example.com/a"));
    let (sent, inserts) = cycle(&mut state, &mut rows, &[p], &config);
    assert_eq!(sent, vec!["1abcde".to_string()]);
    assert_eq!(inserts, 1);
    assert!(rows.contains("1abcde"));
    let (sent, _) = cycle(&mut state, &mut rows, &[], &config);
    assert!(sent.is_empty());
    assert!(rows.contains("1abcde"));
}

#[test]
fn scenario_overlap_is_not_delivered_again() {
    let mut state = PollLoop::new();
    let mut rows = HashSet::new();
    let config = FilterConfig::standard();
    cycle(&mut state, &mut rows, &[], &config);
    let p = post("1abcde", 150, 3600, Some("https://example.com/a"));
    let (sent, _) = cycle(&mut state, &mut rows, &[p.duplicate()], &config);
    assert_eq!(sent.len(), 1);
    assert!(!state.is_known(&p.id));
    let (sent, inserts) = cycle(&mut state, &mut rows, &[p.duplicate()], &config);
    assert!(sent.is_empty());
    assert_eq!(inserts, 1);
    assert!(state.is_known(&p.id));
    let (sent, inserts) = cycle(&mut state, &mut rows, &[p.duplicate()], &config);
    assert!(sent.is_empty());
    assert_eq!(inserts, 0);
    assert_eq!(rows.len(), 1);
}

#[test]
fn scenario_low_score_is_never_claimed() {
    let mut state = PollLoop::new();
    let mut rows = HashSet::new();
    let config = FilterConfig::standard();
    cycle(&mut state, &mut rows, &[], &config);
    let p = post("low", 50, 3600, Some("https://example.com/a"));
    let (sent, inserts) = cycle(&mut state, &mut rows, &[p], &config);
    assert!(sent.is_empty());
    assert_eq!(inserts, 0);
    assert!(rows.is_empty());
}

#[test]
fn scenario_banned_domain_is_rejected_despite_score() {
    let mut state = PollLoop::new();
    let mut rows = HashSet::new();
    let config = FilterConfig::standard();
    cycle(&mut state, &mut rows, &[], &config);
    let p = post("xyz", 500, 3600, Some("https://redd.it/xyz"));
    assert_eq!(state.screen(&p, NOW, &config), Screening::Rejected);
    let (sent, inserts) = cycle(&mut state, &mut rows, &[p], &config);
    assert!(sent.is_empty());
    assert_eq!(inserts, 0);
    assert!(rows.is_empty());
}

#[test]
fn scenario_service_unavailable_aborts_the_cycle() {
    let mut state = PollLoop::new();
    let mut rows: HashSet<String> = HashSet::new();
    let config = FilterConfig::standard();
    assert_eq!(state.step(Event::Wake { cancelled: false }), Action::Fetch);
    assert_eq!(state.step(Event::Responded { status: 503 }), Action::Sleep { secs: 60 });
    assert_eq!(state.phase(), Phase::Sleeping);
    assert!(rows.is_empty());
    assert_eq!(state.step(Event::Slept), Action::Observe);
    assert_eq!(state.step(Event::Wake { cancelled: false }), Action::Fetch);
    assert_eq!(state.phase(), Phase::Fetching);
    state.step(Event::FetchFailed);
    state.step(Event::Slept);
    let (sent, inserts) = cycle(
        &mut state,
        &mut rows,
        &[post("a", 150, 3600, Some("https://example.com/a"))],
        &config,
    );
    assert!(sent.is_empty());
    assert_eq!(inserts, 1);
}

#[test]
fn one_posts_store_error_does_not_stop_the_batch() {
    let mut state = PollLoop::new();
    let mut rows = HashSet::new();
    let config = FilterConfig::standard();
    cycle(&mut state, &mut rows, &[], &config);
    state.step(Event::Wake { cancelled: false });
    state.step(Event::Responded { status: 200 });
    state.step(Event::Parsed { ok: true });
    let a = post("a", 150, 3600, Some("https://example.com/a"));
    let b = post("b", 150, 3600, Some("https://example.com/b"));
    assert_eq!(state.screen(&a, NOW, &config), Screening::Claim);
    let failed = claim_outcome(InsertStatus::Failed);
    assert!(matches!(state.settle(&a, failed), Delivery::Skip));
    assert_eq!(state.phase(), Phase::PerPostProcessing);
    assert_eq!(state.screen(&b, NOW, &config), Screening::Claim);
    let outcome = claim_outcome(insert(&mut rows, &b.id));
    match state.settle(&b, outcome) {
        Delivery::Send(message) => {
            assert_eq!(message.embeds[0].title, Some("title of b".to_string()));
        },
        other => panic!("expected a message, got {:?}", other),
    }
}

#[test]
fn duplicate_within_one_batch_is_delivered_once() {
    let mut state = PollLoop::new();
    let mut rows = HashSet::new();
    let config = FilterConfig::standard();
    cycle(&mut state, &mut rows, &[], &config);
    let p = post("a", 150, 3600, Some("https://example.com/a"));
    let batch = vec![p.duplicate(), p.duplicate(), p.duplicate()];
    let (sent, inserts) = cycle(&mut state, &mut rows, &batch, &config);
    assert_eq!(sent, vec!["a".to_string()]);
    assert_eq!(inserts, 2);
    assert!(state.is_known(&p.id));
}

#[test]
fn success_is_the_range_from_200_to_299() {
    assert!(status_is_success(200));
    assert!(status_is_success(299));
    assert!(!status_is_success(199));
    assert!(!status_is_success(300));
    assert!(!status_is_success(503));
    assert!(!status_is_success(0));
}
