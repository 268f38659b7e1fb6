use book_providers::errors::{FetchError, ProviderError};
use book_providers::fetch::{
    block_backoff, clock_nanos, get_random_user_agent, is_soft_block, pick_user_agent,
    request_headers, user_agent, FetchState, ATTEMPT_TIMEOUT_SECS, MAX_ATTEMPTS, MAX_DELAY_MS,
    MIN_DELAY_MS, USER_AGENT_COUNT,
};
use book_providers::google_books::GoogleBooksService;
use book_providers::retry::{FetchAction, FetchEvent, FetchPhase, FetchRun, QUEUE_POLL_MS};

const BLOCKED: &str = "<div class=\"error_info\">搜索访问太频繁。</div>";

#[test]
fn policy_values() {
    assert_eq!(MIN_DELAY_MS, 2000);
    assert_eq!(MAX_DELAY_MS, 3000);
    assert_eq!(MAX_ATTEMPTS, 3);
    assert_eq!(ATTEMPT_TIMEOUT_SECS, 15);
    assert_eq!(USER_AGENT_COUNT, 5);
}

#[test]
fn user_agents_come_from_the_pool() {
    assert_eq!(
        user_agent(0),
        "Mozilla/5.0 (Windows NT 10.0; Win64; x64) AppleWebKit/537.36 (KHTML, like Gecko) Chrome/120.0.0.0 Safari/537.36"
    );
    assert_eq!(
        user_agent(3),
        "Mozilla/5.0 (Windows NT 10.0; Win64; x64; rv:121.0) Gecko/20100101 Firefox/121.0"
    );
    assert_eq!(
        user_agent(4),
        "Mozilla/5.0 (Macintosh; Intel Mac OS X 10_15_7) AppleWebKit/605.1.15 (KHTML, like Gecko) Version/17.1 Safari/605.1.15"
    );
    assert_eq!(pick_user_agent(0), user_agent(0));
    assert_eq!(pick_user_agent(7), user_agent(2));
    assert_eq!(pick_user_agent(999_999_999), user_agent(4));
    let pool: Vec<&str> = (0..USER_AGENT_COUNT).map(user_agent).collect();
    for _ in 0..20 {
        assert!(pool.contains(&get_random_user_agent()));
    }
    assert!(clock_nanos() < 1_000_000_000);
}

#[test]
fn headers_look_like_a_browser() {
    let headers = request_headers("UA/1.0");
    let expected: Vec<(String, String)> = [
        ("User-Agent", "UA/1.0"),
        ("Referer", "https://book.douban.com/"),
        (
            "Accept",
            "text/html,application/xhtml+xml,application/xml;q=0.9,image/webp,*/*;q=0.8",
        ),
        ("Accept-Language", "zh-CN,zh;q=0.9,en-US;q=0.8,en;q=0.7"),
        ("Accept-Encoding", "gzip, deflate, br"),
        ("DNT", "1"),
        ("Upgrade-Insecure-Requests", "1"),
        ("Cache-Control", "max-age=0"),
    ]
    .iter()
    .map(|(k, v)| (k.to_string(), v.to_string()))
    .collect();
    assert_eq!(headers, expected);
}

fn free(last_completed_ms: u64) -> FetchState {
    FetchState { last_completed_ms, busy: false }
}

fn run_in(phase: FetchPhase, attempt: u32, max_attempts: u32, due_ms: u64) -> FetchRun {
    FetchRun { phase, attempt, max_attempts, due_ms }
}

#[test]
fn delay_is_between_floor_and_ceiling_or_nothing() {
    let state = free(10_000);
    assert_eq!(state.request_delay(10_000, 0), 2000);
    assert_eq!(state.request_delay(10_000, 1000), 3000);
    assert_eq!(state.request_delay(10_000, 1001), 2000);
    assert_eq!(state.request_delay(10_500, 1234), 2233);
    assert_eq!(state.request_delay(11_999, 5), 2005);
    assert_eq!(state.request_delay(12_000, 5), 0);
    assert_eq!(state.request_delay(99_000, 5), 0);
    assert_eq!(state.send_at(10_500, 1234), 12_733);
    assert_eq!(state.send_at(12_000, 5), 12_000);
    for nanos in [0u32, 1, 999, 1000, 1001, 123_456_789, 999_999_999, u32::MAX] {
        let wait = state.request_delay(10_001, nanos);
        assert!(MIN_DELAY_MS <= wait && wait <= MAX_DELAY_MS);
    }
}

#[test]
fn a_clock_that_lags_waits_for_the_last_completion_too() {
    let state = free(10_000);
    assert_eq!(state.send_at(9_000, 7), 12_007);
    assert_eq!(state.request_delay(9_000, 7), 3_007);
    assert_eq!(state.send_at(0, 1000), 13_000);
}

#[test]
fn times_end_where_the_clock_ends() {
    let state = free(u64::MAX - 10);
    assert_eq!(state.send_at(u64::MAX - 5, 3), u64::MAX);
    assert_eq!(state.request_delay(u64::MAX - 5, 3), 5);
    assert_eq!(free(0).send_at(u64::MAX, 3), u64::MAX);
    assert_eq!(free(u64::MAX).send_at(u64::MAX, 3), u64::MAX);
}

#[test]
fn a_new_fetcher_need_not_wait() {
    assert_eq!(FetchState::new(50_000), free(40_000));
    assert_eq!(FetchState::new(3), free(0));
    assert_eq!(FetchState::new(50_000).request_delay(50_000, 77), 0);
}

#[test]
fn completions_only_move_forward() {
    let mut state = FetchState { last_completed_ms: 100, busy: true };
    state.record_completion(250);
    assert_eq!(state, FetchState { last_completed_ms: 250, busy: true });
    state.record_completion(200);
    assert_eq!(state.last_completed_ms, 250);
    state.record_completion(250);
    assert_eq!(state.last_completed_ms, 250);
}

#[test]
fn requests_through_one_fetcher_keep_the_floor_between_completions() {
    // A clock that the test moves by hand.
    let mut clock: u64 = 1_000_000;
    let mut state = FetchState::new(clock);
    let mut completions: Vec<u64> = Vec::new();
    let latencies = [0u64, 5, 120, 0, 2500, 1, 0, 40];
    let pauses = [0u64, 0, 1500, 1999, 2000, 10, 0, 7000];
    let mut nanos: u32 = 12345;
    for i in 0..latencies.len() {
        clock += pauses[i];
        let wait = state.request_delay(clock, nanos);
        clock += wait;
        clock += latencies[i];
        state.record_completion(clock);
        completions.push(clock);
        nanos = nanos.wrapping_mul(1_103_515_245).wrapping_add(12345);
    }
    for pair in completions.windows(2) {
        assert!(pair[1] - pair[0] >= MIN_DELAY_MS, "{:?}", pair);
    }
}

/// A caller that does what it is told, on a clock that the test moves by hand.
struct Caller {
    run: FetchRun,
    wake_at: u64,
    next: u8,
    bodies: Vec<Option<&'static str>>,
    latency: u64,
    outcome: Option<FetchAction>,
}

#[test]
fn fetches_that_share_a_fetcher_never_end_within_the_floor_of_one_another() {
    let mut shared = FetchState::new(0);
    let mut callers: Vec<Caller> = vec![
        Caller { run: FetchRun::new(3), wake_at: 0, next: 0, bodies: vec![Some("ok")], latency: 30, outcome: None },
        Caller { run: FetchRun::new(3), wake_at: 0, next: 0, bodies: vec![Some(BLOCKED), None, Some("ok")], latency: 700, outcome: None },
        Caller { run: FetchRun::new(2), wake_at: 10, next: 0, bodies: vec![None, None], latency: 0, outcome: None },
        Caller { run: FetchRun::new(3), wake_at: 4000, next: 0, bodies: vec![Some("ok")], latency: 2600, outcome: None },
        Caller { run: FetchRun::new(1), wake_at: 4000, next: 0, bodies: vec![Some(BLOCKED)], latency: 1, outcome: None },
    ];
    let mut completions: Vec<u64> = Vec::new();
    let mut in_flight = 0;
    let mut nanos: u32 = 99;
    let mut clock: u64 = 0;
    while callers.iter().any(|c| c.outcome.is_none()) {
        let mut moved = false;
        for caller in callers.iter_mut().filter(|c| c.outcome.is_none() && c.wake_at <= clock) {
            moved = true;
            nanos = nanos.wrapping_mul(1_103_515_245).wrapping_add(12345);
            let body = caller.bodies.get(caller.run.attempt as usize).copied().flatten();
            let event = match caller.next {
                0 => FetchEvent::Ready { now_ms: clock, nanos },
                1 => FetchEvent::Waited { now_ms: clock },
                _ => match body {
                    Some(text) => FetchEvent::Responded { body: text, now_ms: clock },
                    None => FetchEvent::Failed { now_ms: clock },
                },
            };
            let before = shared.last_completed_ms;
            if caller.next == 2 {
                in_flight -= 1;
            }
            match caller.run.step(&mut shared, event) {
                FetchAction::Queue { ms } => {
                    caller.wake_at = clock + ms;
                    caller.next = 0;
                }
                FetchAction::Delay { ms } => {
                    caller.wake_at = clock + ms;
                    caller.next = 1;
                }
                FetchAction::Send => {
                    in_flight += 1;
                    assert_eq!(in_flight, 1);
                    caller.wake_at = clock + caller.latency;
                    caller.next = 2;
                }
                FetchAction::BackOff { secs, .. } => {
                    caller.wake_at = clock + secs * 1000;
                    caller.next = 0;
                }
                done => caller.outcome = Some(done),
            }
            if shared.last_completed_ms != before {
                completions.push(shared.last_completed_ms);
                assert!(shared.last_completed_ms - before >= MIN_DELAY_MS);
            }
        }
        if !moved {
            clock += 1;
        }
    }
    let outcomes: Vec<FetchAction> = callers.iter().map(|c| c.outcome.unwrap()).collect();
    assert_eq!(
        outcomes,
        vec![
            FetchAction::Deliver,
            FetchAction::Deliver,
            FetchAction::Fail(FetchError::RetriesExhausted),
            FetchAction::Deliver,
            FetchAction::Fail(FetchError::RetriesExhausted),
        ]
    );
    assert_eq!(completions.len(), 1 + 3 + 2 + 1 + 1);
    for pair in completions.windows(2) {
        assert!(pair[1] - pair[0] >= MIN_DELAY_MS, "{:?}", pair);
    }
    assert!(!shared.busy);
}

#[test]
fn block_notice_needs_both_signatures() {
    assert!(is_soft_block(BLOCKED));
    assert!(is_soft_block("搜索访问太频繁 ... error_info"));
    assert!(!is_soft_block("<div class=\"error_info\">other</div>"));
    assert!(!is_soft_block("搜索访问太频繁"));
    assert!(!is_soft_block("<html><body>fine</body></html>"));
    assert!(!is_soft_block(""));
}

#[test]
fn backoff_after_a_block_doubles() {
    assert_eq!(block_backoff(0), 1);
    assert_eq!(block_backoff(1), 2);
    assert_eq!(block_backoff(2), 4);
    assert_eq!(block_backoff(10), 1024);
    assert_eq!(block_backoff(63), 1u64 << 63);
    assert_eq!(block_backoff(64), u64::MAX);
    assert_eq!(block_backoff(u32::MAX), u64::MAX);
}

#[test]
fn a_fetch_that_meets_a_page_delivers_it() {
    let mut shared = free(0);
    let mut run = FetchRun::new(MAX_ATTEMPTS);
    assert_eq!(run, run_in(FetchPhase::Idle, 0, 3, 0));
    let action = run.step(&mut shared, FetchEvent::Ready { now_ms: 500, nanos: 10 });
    assert_eq!(action, FetchAction::Delay { ms: 2010 });
    assert_eq!(run, run_in(FetchPhase::Delaying, 0, 3, 2510));
    assert!(shared.busy);
    assert_eq!(run.step(&mut shared, FetchEvent::Waited { now_ms: 2510 }), FetchAction::Send);
    assert_eq!(run.phase, FetchPhase::Requesting);
    let action =
        run.step(&mut shared, FetchEvent::Responded { body: "<html></html>", now_ms: 2600 });
    assert_eq!(action, FetchAction::Deliver);
    assert_eq!(run, run_in(FetchPhase::Success, 0, 3, 2510));
    assert_eq!(shared, free(2600));
    // Once over, nothing moves the fetch.
    assert_eq!(run.step(&mut shared, FetchEvent::Waited { now_ms: 3000 }), FetchAction::Ignore);
    assert_eq!(run.step(&mut shared, FetchEvent::Failed { now_ms: 9000 }), FetchAction::Ignore);
    assert_eq!(run.step(&mut shared, FetchEvent::Abandoned { now_ms: 9000 }), FetchAction::Ignore);
    assert_eq!(run.phase, FetchPhase::Success);
    assert_eq!(shared, free(2600));
}

#[test]
fn a_wait_that_is_cut_short_goes_on() {
    let mut shared = free(0);
    let mut run = FetchRun::new(3);
    assert_eq!(
        run.step(&mut shared, FetchEvent::Ready { now_ms: 100, nanos: 0 }),
        FetchAction::Delay { ms: 2000 }
    );
    assert_eq!(
        run.step(&mut shared, FetchEvent::Waited { now_ms: 1500 }),
        FetchAction::Delay { ms: 600 }
    );
    assert_eq!(run.phase, FetchPhase::Delaying);
    assert_eq!(run.step(&mut shared, FetchEvent::Waited { now_ms: 2100 }), FetchAction::Send);
    // A request that is reported to have ended before it could be sent counts
    // as ended when it could be sent.
    assert_eq!(
        run.step(&mut shared, FetchEvent::Responded { body: "x", now_ms: 2000 }),
        FetchAction::Deliver
    );
    assert_eq!(shared, free(2100));
}

#[test]
fn a_busy_fetcher_lets_no_second_fetch_through() {
    let mut shared = free(0);
    let mut first = FetchRun::new(3);
    let mut second = FetchRun::new(3);
    assert_eq!(
        first.step(&mut shared, FetchEvent::Ready { now_ms: 5000, nanos: 0 }),
        FetchAction::Delay { ms: 0 }
    );
    assert_eq!(
        second.step(&mut shared, FetchEvent::Ready { now_ms: 5000, nanos: 0 }),
        FetchAction::Queue { ms: QUEUE_POLL_MS }
    );
    assert_eq!(second, FetchRun::new(3));
    assert_eq!(first.step(&mut shared, FetchEvent::Waited { now_ms: 5000 }), FetchAction::Send);
    assert_eq!(
        second.step(&mut shared, FetchEvent::Ready { now_ms: 5250, nanos: 0 }),
        FetchAction::Queue { ms: 250 }
    );
    assert_eq!(
        first.step(&mut shared, FetchEvent::Responded { body: "x", now_ms: 5400 }),
        FetchAction::Deliver
    );
    assert_eq!(
        second.step(&mut shared, FetchEvent::Ready { now_ms: 5500, nanos: 1 }),
        FetchAction::Delay { ms: 2001 }
    );
    assert_eq!(second, run_in(FetchPhase::Delaying, 0, 3, 7501));
    assert_eq!(shared, FetchState { last_completed_ms: 5400, busy: true });
}

#[test]
fn a_blocked_fetch_backs_off_and_tries_again() {
    let mut shared = free(0);
    let mut run = FetchRun::new(3);
    assert_eq!(
        run.step(&mut shared, FetchEvent::Ready { now_ms: 10_000, nanos: 0 }),
        FetchAction::Delay { ms: 0 }
    );
    assert_eq!(run.step(&mut shared, FetchEvent::Waited { now_ms: 10_000 }), FetchAction::Send);
    assert_eq!(
        run.step(&mut shared, FetchEvent::Responded { body: BLOCKED, now_ms: 10_100 }),
        FetchAction::BackOff { secs: 1, cause: FetchError::SoftBlock }
    );
    assert_eq!(run, run_in(FetchPhase::BlockedRetry, 0, 3, 10_000));
    assert_eq!(shared, free(10_100));
    assert_eq!(
        run.step(&mut shared, FetchEvent::Ready { now_ms: 12_100, nanos: 3 }),
        FetchAction::Delay { ms: 0 }
    );
    assert_eq!(run, run_in(FetchPhase::Delaying, 1, 3, 12_100));
    assert_eq!(run.step(&mut shared, FetchEvent::Waited { now_ms: 12_100 }), FetchAction::Send);
    assert_eq!(
        run.step(&mut shared, FetchEvent::Responded { body: BLOCKED, now_ms: 12_200 }),
        FetchAction::BackOff { secs: 2, cause: FetchError::SoftBlock }
    );
    assert_eq!(
        run.step(&mut shared, FetchEvent::Ready { now_ms: 12_300, nanos: 3 }),
        FetchAction::Delay { ms: 2003 }
    );
    assert_eq!(run.attempt, 2);
    assert_eq!(run.step(&mut shared, FetchEvent::Waited { now_ms: 14_303 }), FetchAction::Send);
    assert_eq!(
        run.step(&mut shared, FetchEvent::Responded { body: BLOCKED, now_ms: 14_400 }),
        FetchAction::Fail(FetchError::RetriesExhausted)
    );
    assert_eq!(run, run_in(FetchPhase::Exhausted, 2, 3, 14_303));
    assert_eq!(shared, free(14_400));
}

#[test]
fn a_failing_fetch_backs_off_linearly_and_gives_up() {
    let mut shared = free(0);
    let mut run = FetchRun::new(3);
    run.step(&mut shared, FetchEvent::Ready { now_ms: 10_000, nanos: 0 });
    run.step(&mut shared, FetchEvent::Waited { now_ms: 10_000 });
    assert_eq!(
        run.step(&mut shared, FetchEvent::Failed { now_ms: 25_000 }),
        FetchAction::BackOff { secs: 1, cause: FetchError::NetworkFailure }
    );
    assert_eq!(run.phase, FetchPhase::FailedRetry);
    assert_eq!(shared, free(25_000));
    run.step(&mut shared, FetchEvent::Ready { now_ms: 26_000, nanos: 0 });
    run.step(&mut shared, FetchEvent::Waited { now_ms: 28_000 });
    assert_eq!(
        run.step(&mut shared, FetchEvent::Failed { now_ms: 43_000 }),
        FetchAction::BackOff { secs: 2, cause: FetchError::NetworkFailure }
    );
    run.step(&mut shared, FetchEvent::Ready { now_ms: 45_000, nanos: 0 });
    run.step(&mut shared, FetchEvent::Waited { now_ms: 45_000 });
    assert_eq!(
        run.step(&mut shared, FetchEvent::Failed { now_ms: 60_000 }),
        FetchAction::Fail(FetchError::RetriesExhausted)
    );
    assert_eq!(run.phase, FetchPhase::Exhausted);
    assert_eq!(run.attempt, 2);
}

#[test]
fn a_fetch_without_attempts_is_exhausted_at_once() {
    let mut shared = free(7);
    let mut run = FetchRun::new(0);
    assert_eq!(
        run.step(&mut shared, FetchEvent::Ready { now_ms: 8, nanos: 1 }),
        FetchAction::Fail(FetchError::RetriesExhausted)
    );
    assert_eq!(run.phase, FetchPhase::Exhausted);
    assert_eq!(shared, free(7));
}

#[test]
fn a_single_attempt_is_not_retried() {
    let mut shared = free(0);
    let mut run = FetchRun::new(1);
    run.step(&mut shared, FetchEvent::Ready { now_ms: 10_000, nanos: 0 });
    run.step(&mut shared, FetchEvent::Waited { now_ms: 10_000 });
    assert_eq!(
        run.step(&mut shared, FetchEvent::Responded { body: BLOCKED, now_ms: 10_001 }),
        FetchAction::Fail(FetchError::RetriesExhausted)
    );
}

#[test]
fn a_fetch_that_is_given_up_frees_the_fetcher() {
    let mut shared = free(0);
    let mut waiting = FetchRun::new(3);
    waiting.step(&mut shared, FetchEvent::Ready { now_ms: 100, nanos: 0 });
    assert!(shared.busy);
    assert_eq!(
        waiting.step(&mut shared, FetchEvent::Abandoned { now_ms: 200 }),
        FetchAction::Ignore
    );
    assert_eq!(waiting.phase, FetchPhase::Exhausted);
    assert_eq!(shared, free(0));

    let mut sending = FetchRun::new(3);
    sending.step(&mut shared, FetchEvent::Ready { now_ms: 5000, nanos: 0 });
    sending.step(&mut shared, FetchEvent::Waited { now_ms: 5000 });
    sending.step(&mut shared, FetchEvent::Abandoned { now_ms: 5100 });
    assert_eq!(sending.phase, FetchPhase::Exhausted);
    assert_eq!(shared, free(5100));

    let mut fresh = FetchRun::new(3);
    fresh.step(&mut shared, FetchEvent::Abandoned { now_ms: 1 });
    assert_eq!(fresh.phase, FetchPhase::Exhausted);
    assert_eq!(
        fresh.step(&mut shared, FetchEvent::Ready { now_ms: 9000, nanos: 0 }),
        FetchAction::Ignore
    );
    assert_eq!(shared, free(5100));
}

#[test]
fn a_provider_steps_its_own_fetches() {
    let mut provider = GoogleBooksService::new(20_000);
    assert_eq!(provider.fetch_state, free(10_000));
    let mut run = provider.begin_fetch();
    assert_eq!(run, FetchRun::new(MAX_ATTEMPTS));
    assert_eq!(
        provider.fetch_step(&mut run, FetchEvent::Ready { now_ms: 20_000, nanos: 5 }),
        FetchAction::Delay { ms: 0 }
    );
    assert_eq!(provider.fetch_state, FetchState { last_completed_ms: 10_000, busy: true });
    assert_eq!(
        provider.fetch_step(&mut run, FetchEvent::Waited { now_ms: 20_000 }),
        FetchAction::Send
    );
    assert_eq!(
        provider.fetch_step(&mut run, FetchEvent::Failed { now_ms: 35_000 }),
        FetchAction::BackOff { secs: 1, cause: FetchError::NetworkFailure }
    );
    assert_eq!(provider.fetch_state, free(35_000));
    assert_eq!(run.phase, FetchPhase::FailedRetry);
}

#[test]
fn events_out_of_turn_are_ignored() {
    let mut shared = free(42);
    let mut run = FetchRun::new(3);
    assert_eq!(run.step(&mut shared, FetchEvent::Waited { now_ms: 50 }), FetchAction::Ignore);
    assert_eq!(
        run.step(&mut shared, FetchEvent::Responded { body: "x", now_ms: 99 }),
        FetchAction::Ignore
    );
    assert_eq!(run.step(&mut shared, FetchEvent::Failed { now_ms: 99 }), FetchAction::Ignore);
    assert_eq!(run, FetchRun::new(3));
    assert_eq!(shared, free(42));
    run.step(&mut shared, FetchEvent::Ready { now_ms: 100, nanos: 0 });
    assert_eq!(
        run.step(&mut shared, FetchEvent::Ready { now_ms: 100, nanos: 0 }),
        FetchAction::Ignore
    );
    assert_eq!(run.phase, FetchPhase::Delaying);
}

#[test]
fn errors_say_what_went_wrong() {
    assert_eq!(FetchError::RetriesExhausted.message(), "Max retries exceeded");
    assert_eq!(FetchError::NetworkFailure.message(), "network failure");
    assert_eq!(FetchError::SoftBlock.message(), "blocked by the source");
    assert_eq!(
        ProviderError::Fetch(FetchError::RetriesExhausted).message(),
        "Max retries exceeded"
    );
    assert_eq!(ProviderError::Parse.message(), "malformed response");
    assert_eq!(ProviderError::NotFound.message(), "not found");
}
