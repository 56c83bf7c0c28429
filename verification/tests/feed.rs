use auction_feed::fetch::AttemptEvent;
use auction_feed::fetch::AttemptStep;
use auction_feed::fetch::FetchAttempt;
use auction_feed::fetch::FetchError;
use auction_feed::fetch::page_url;
use auction_feed::fetch::MAX_ATTEMPTS;
use auction_feed::orchestrate::page_indices;
use auction_feed::orchestrate::summarize;
use auction_feed::orchestrate::tally;
use auction_feed::orchestrate::TaskOutcome;
use auction_feed::structs::Auction;
use auction_feed::structs::Auctions;

fn listing(name: &str, bid: u64) -> Auction {
    Auction {
        uuid: String::from("9f6c1d2e"),
        item_name: String::from(name),
        category: String::from("misc"),
        tier: String::from("COMMON"),
        starting_bid: bid,
        item_bytes: String::from("H4sIAAAAAAAA"),
        bin: false,
    }
}

fn envelope(total_pages: u32, page: i32, listings: usize, told: u32) -> Auctions {
    let mut auctions = Vec::new();
    for k in 0..listings {
        auctions.push(listing("Aspect of the End", 100 + k as u64));
    }
    Auctions { totalPages: total_pages, page, auctions, totalAuctions: told }
}

#[test]
fn one_task_per_page_index() {
    let pages = page_indices(5);
    assert_eq!(pages, vec![0, 1, 2, 3, 4]);
}

#[test]
fn no_pages_no_tasks() {
    let pages = page_indices(0);
    assert!(pages.is_empty());
}

#[test]
fn redundant_task_for_page_zero() {
    let pages = page_indices(3);
    assert_eq!(pages[0], 0);
    assert_eq!(pages.len(), 3);
}

#[test]
fn page_url_interpolates_the_index() {
    assert_eq!(page_url(0), "https://api.hypixel.net/v2/skyblock/auctions?page=0");
    assert_eq!(page_url(7), "https://api.hypixel.net/v2/skyblock/auctions?page=7");
    assert_eq!(page_url(105), "https://api.hypixel.net/v2/skyblock/auctions?page=105");
    assert_eq!(
        page_url(4294967295),
        "https://api.hypixel.net/v2/skyblock/auctions?page=4294967295"
    );
}

#[test]
fn fresh_fetch_starts_at_attempt_zero() {
    let attempt = FetchAttempt::start(4);
    assert_eq!(attempt.page, 4);
    assert_eq!(attempt.attempt, 0);
    assert_eq!(attempt.url, page_url(4));
}

#[test]
fn parsed_body_ends_the_fetch_with_its_envelope() {
    let attempt = FetchAttempt::start(1);
    let step = attempt.step(AttemptEvent::Parsed { envelope: envelope(9, 1, 4, 400) });
    match step {
        AttemptStep::Done { result: Ok(env) } => {
            assert_eq!(env.auctions.len(), 4);
            assert_eq!(env.totalPages, 9);
            assert_eq!(env.totalAuctions, 400);
        }
        _ => panic!("a parsed body must finish the fetch successfully"),
    }
}

#[test]
fn http_failure_degrades_to_an_empty_envelope() {
    let attempt = FetchAttempt::start(2);
    let step = attempt.step(AttemptEvent::HttpFailure);
    match step {
        AttemptStep::Done { result: Ok(env) } => {
            assert!(env.auctions.is_empty());
            assert_eq!(env.totalPages, 0);
            assert_eq!(env.page, 0);
            assert_eq!(env.totalAuctions, 0);
        }
        _ => panic!("a non-success status must degrade, not fail"),
    }
}

#[test]
fn http_failure_contributes_zero_without_stopping_siblings() {
    // One page answers with status 500 and degrades to an empty envelope;
    // its siblings still contribute their own counts.
    let degraded = match FetchAttempt::start(1).step(AttemptEvent::HttpFailure) {
        AttemptStep::Done { result: Ok(env) } => env,
        _ => panic!("a non-success status must degrade, not fail"),
    };
    let results = vec![
        TaskOutcome::Fetched { envelope: envelope(3, 0, 2, 60) },
        TaskOutcome::Fetched { envelope: degraded },
        TaskOutcome::Fetched { envelope: envelope(3, 2, 5, 60) },
    ];
    assert_eq!(tally(&results), 7);
}

#[test]
fn transport_failure_is_not_retried() {
    let attempt = FetchAttempt::start(3);
    let step = attempt.step(AttemptEvent::TransportFailed {
        cause: String::from("connection reset by peer"),
    });
    match step {
        AttemptStep::Done { result: Err(FetchError::Transport { cause }) } => {
            assert_eq!(cause, "connection reset by peer");
        }
        _ => panic!("a transport failure must fail the fetch at once"),
    }
}

#[test]
fn malformed_body_waits_and_retries() {
    let attempt = FetchAttempt::start(6);
    match attempt.step(AttemptEvent::Malformed) {
        AttemptStep::RetryAfterDelay { state } => {
            assert_eq!(state.page, 6);
            assert_eq!(state.attempt, 1);
            assert_eq!(state.url, page_url(6));
        }
        _ => panic!("the first malformed body must be retried"),
    }
}

#[test]
fn malformed_twice_then_valid_succeeds() {
    let mut state = FetchAttempt::start(2);
    for failed in 1..3u32 {
        state = match state.step(AttemptEvent::Malformed) {
            AttemptStep::RetryAfterDelay { state } => state,
            _ => panic!("attempts must remain after {} malformed bodies", failed),
        };
        assert_eq!(state.attempt, failed);
    }
    let step = state.step(AttemptEvent::Parsed { envelope: envelope(8, 2, 11, 900) });
    match step {
        AttemptStep::Done { result: Ok(env) } => assert_eq!(env.auctions.len(), 11),
        _ => panic!("a body that parses on the last attempt must succeed"),
    }
}

#[test]
fn malformed_three_times_exhausts_the_retries() {
    let mut state = FetchAttempt::start(5);
    for _ in 0..2 {
        state = match state.step(AttemptEvent::Malformed) {
            AttemptStep::RetryAfterDelay { state } => state,
            _ => panic!("the first two malformed bodies must be retried"),
        };
    }
    match state.step(AttemptEvent::Malformed) {
        AttemptStep::Done { result: Err(FetchError::ParseExhausted { url, attempts }) } => {
            assert_eq!(url, page_url(5));
            assert_eq!(attempts, MAX_ATTEMPTS);
            assert_eq!(attempts, 3);
        }
        _ => panic!("the third malformed body must exhaust the fetch"),
    }
}

#[test]
fn exhausted_page_contributes_zero_while_siblings_complete() {
    let results = vec![
        TaskOutcome::Fetched { envelope: envelope(3, 0, 4, 10) },
        TaskOutcome::Failed {
            error: FetchError::ParseExhausted { url: page_url(1), attempts: MAX_ATTEMPTS },
        },
        TaskOutcome::Fetched { envelope: envelope(3, 2, 6, 10) },
    ];
    assert_eq!(tally(&results), 10);
}

#[test]
fn tally_of_no_tasks_is_zero() {
    assert_eq!(tally(&Vec::new()), 0);
}

#[test]
fn errors_and_aborts_contribute_zero() {
    let results = vec![
        TaskOutcome::Failed { error: FetchError::Transport { cause: String::from("timed out") } },
        TaskOutcome::Aborted { cause: String::from("task panicked") },
    ];
    assert_eq!(tally(&results), 0);
}

#[test]
fn empty_envelope_is_all_zeroes() {
    let env = Auctions::empty();
    assert_eq!(env.totalPages, 0);
    assert_eq!(env.page, 0);
    assert!(env.auctions.is_empty());
    assert_eq!(env.totalAuctions, 0);
}

#[test]
fn parsed_and_told_totals_are_reported_independently() {
    // The probe claims 3 pages and 50 listings feed-wide; each of the
    // three pages actually parses a single listing. The two figures are
    // reported side by side, not reconciled.
    let probe = envelope(3, 0, 1, 50);
    let pages = page_indices(probe.totalPages);
    assert_eq!(pages, vec![0, 1, 2]);
    let mut results = Vec::new();
    for page in pages {
        let attempt = FetchAttempt::start(page);
        let env = envelope(3, page as i32, 1, 50);
        match attempt.step(AttemptEvent::Parsed { envelope: env }) {
            AttemptStep::Done { result: Ok(env) } => {
                results.push(TaskOutcome::Fetched { envelope: env });
            }
            _ => panic!("a parsed body must finish the fetch successfully"),
        }
    }
    let summary = summarize(&probe, &results);
    assert_eq!(summary.total_pages, 3);
    assert_eq!(summary.parsed, 3);
    assert_eq!(summary.told, 50);
}
