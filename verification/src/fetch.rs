//! The policy of the fetcher: how requests are kept apart, what they carry
//! to look like a browser's, how a block by the source is told, and how long
//! to stay away after a setback.

use std::time::{Duration, SystemTime, SystemTimeError};
use crate::text::{contains, contains_text};
use vstd::arithmetic::power2::{
    lemma2_to64, lemma2_to64_rest, lemma_pow2_strictly_increases, lemma_pow2_unfold, pow2,
};
use vstd::prelude::*;
use vstd::string::StringExecFns;

verus! {

/// Least time, in milliseconds, between the end of one request and the start
/// of the next.
pub const MIN_DELAY_MS: u64 = 2000;

/// Longest wait, in milliseconds, that the spacing of requests asks for.
pub const MAX_DELAY_MS: u64 = 3000;

/// How often a fetch tries before it gives up.
pub const MAX_ATTEMPTS: u32 = 3;

/// Time, in seconds, after which one attempt counts as failed.
pub const ATTEMPT_TIMEOUT_SECS: u64 = 15;

/// Number of browser signatures to choose from.
pub const USER_AGENT_COUNT: usize = 5;

/// `std::time::SystemTime`, a reading of the system's clock.
#[verifier::external_type_specification]
#[verifier::external_body]
pub struct ExSystemTime(SystemTime);

/// `std::time::SystemTimeError`, what `duration_since` returns where the
/// second time is the later one.
#[verifier::external_type_specification]
#[verifier::external_body]
pub struct ExSystemTimeError(SystemTimeError);

/// `SystemTime::now`: nothing is claimed of the time that it reads.
pub assume_specification[ SystemTime::now ]() -> SystemTime;

/// `SystemTime::duration_since`: nothing is claimed of what it returns.
pub assume_specification[ SystemTime::duration_since ](
    this: &SystemTime,
    earlier: SystemTime,
) -> Result<Duration, SystemTimeError>;

/// `Duration::subsec_nanos`: the part of a duration below one second, in
/// nanoseconds, and so less than a thousand million.
pub assume_specification[ Duration::subsec_nanos ](this: &Duration) -> (nanos: u32)
    ensures
        nanos < 1_000_000_000,
;

/// `std::time::UNIX_EPOCH`, the instant from which system time is counted.
/// Nothing is claimed of it.
#[verifier::external_body]
fn unix_epoch() -> SystemTime {
    std::time::UNIX_EPOCH
}

/// The browser signature with the given number.
pub open spec fn user_agent_text(i: int) -> Seq<char> {
    if i == 0 {
        "Mozilla/5.0 (Windows NT 10.0; Win64; x64) AppleWebKit/537.36 (KHTML, like Gecko) Chrome/120.0.0.0 Safari/537.36"@
    } else if i == 1 {
        "Mozilla/5.0 (Windows NT 10.0; Win64; x64) AppleWebKit/537.36 (KHTML, like Gecko) Chrome/119.0.0.0 Safari/537.36"@
    } else if i == 2 {
        "Mozilla/5.0 (Macintosh; Intel Mac OS X 10_15_7) AppleWebKit/537.36 (KHTML, like Gecko) Chrome/120.0.0.0 Safari/537.36"@
    } else if i == 3 {
        "Mozilla/5.0 (Windows NT 10.0; Win64; x64; rv:121.0) Gecko/20100101 Firefox/121.0"@
    } else {
        "Mozilla/5.0 (Macintosh; Intel Mac OS X 10_15_7) AppleWebKit/605.1.15 (KHTML, like Gecko) Version/17.1 Safari/605.1.15"@
    }
}

/// The browser signature with the given number.
pub fn user_agent(i: usize) -> (agent: &'static str)
    requires
        i < USER_AGENT_COUNT,
    ensures
        agent@ == user_agent_text(i as int),
{
    if i == 0 {
        "Mozilla/5.0 (Windows NT 10.0; Win64; x64) AppleWebKit/537.36 (KHTML, like Gecko) Chrome/120.0.0.0 Safari/537.36"
    } else if i == 1 {
        "Mozilla/5.0 (Windows NT 10.0; Win64; x64) AppleWebKit/537.36 (KHTML, like Gecko) Chrome/119.0.0.0 Safari/537.36"
    } else if i == 2 {
        "Mozilla/5.0 (Macintosh; Intel Mac OS X 10_15_7) AppleWebKit/537.36 (KHTML, like Gecko) Chrome/120.0.0.0 Safari/537.36"
    } else if i == 3 {
        "Mozilla/5.0 (Windows NT 10.0; Win64; x64; rv:121.0) Gecko/20100101 Firefox/121.0"
    } else {
        "Mozilla/5.0 (Macintosh; Intel Mac OS X 10_15_7) AppleWebKit/605.1.15 (KHTML, like Gecko) Version/17.1 Safari/605.1.15"
    }
}

/// The browser signature that a reading of the clock's nanoseconds selects.
pub fn pick_user_agent(nanos: u32) -> (agent: &'static str)
    ensures
        agent@ == user_agent_text((nanos as int) % (USER_AGENT_COUNT as int)),
{
    user_agent((nanos as usize) % USER_AGENT_COUNT)
}

/// The nanoseconds within the current second of system time; zero where the
/// system's clock stands before 1970.
pub fn clock_nanos() -> (nanos: u32)
    ensures
        nanos < 1_000_000_000,
{
    match SystemTime::now().duration_since(unix_epoch()) {
        Ok(elapsed) => elapsed.subsec_nanos(),
        Err(_) => 0,
    }
}

/// One of the browser signatures, chosen by the clock.
pub fn get_random_user_agent() -> (agent: &'static str)
    ensures
        exists|i: int| 0 <= i < USER_AGENT_COUNT && agent@ == user_agent_text(i),
{
    let nanos = clock_nanos();
    let agent = pick_user_agent(nanos);
    assert(0 <= (nanos as int) % (USER_AGENT_COUNT as int) < USER_AGENT_COUNT);
    agent
}

/// The headers that go out with every request, the browser signature first.
pub open spec fn request_header_list(agent: Seq<char>) -> Seq<(Seq<char>, Seq<char>)> {
    seq![
        ("User-Agent"@, agent),
        ("Referer"@, "https://book.douban.com/"@),
        (
            "Accept"@,
            "text/html,application/xhtml+xml,application/xml;q=0.9,image/webp,*/*;q=0.8"@,
        ),
        ("Accept-Language"@, "zh-CN,zh;q=0.9,en-US;q=0.8,en;q=0.7"@),
        ("Accept-Encoding"@, "gzip, deflate, br"@),
        ("DNT"@, "1"@),
        ("Upgrade-Insecure-Requests"@, "1"@),
        ("Cache-Control"@, "max-age=0"@),
    ]
}

/// One header, as a pair of owned texts.
fn header(name: &str, value: &str) -> (pair: (String, String))
    ensures
        pair.0@ == name@,
        pair.1@ == value@,
{
    (String::from_str(name), String::from_str(value))
}

/// The headers that make a request look like a browser's, with the given
/// browser signature.
pub fn request_headers(agent: &str) -> (headers: Vec<(String, String)>)
    ensures
        headers.deep_view() == request_header_list(agent@),
{
    let mut headers: Vec<(String, String)> = Vec::new();
    headers.push(header("User-Agent", agent));
    headers.push(header("Referer", "https://book.douban.com/"));
    headers.push(
        header(
            "Accept",
            "text/html,application/xhtml+xml,application/xml;q=0.9,image/webp,*/*;q=0.8",
        ),
    );
    headers.push(header("Accept-Language", "zh-CN,zh;q=0.9,en-US;q=0.8,en;q=0.7"));
    headers.push(header("Accept-Encoding", "gzip, deflate, br"));
    headers.push(header("DNT", "1"));
    headers.push(header("Upgrade-Insecure-Requests", "1"));
    headers.push(header("Cache-Control", "max-age=0"));
    assert(headers.deep_view() =~= request_header_list(agent@));
    headers
}

/// Time since the last completed request, on a clock that reads `now_ms`;
/// zero where the clock reads less than it did then.
pub open spec fn elapsed_ms(last_completed_ms: u64, now_ms: u64) -> int {
    if now_ms >= last_completed_ms {
        now_ms - last_completed_ms
    } else {
        0
    }
}

/// How long to wait before a request: nothing once [`MIN_DELAY_MS`] have
/// passed since the last one ended, else a time between [`MIN_DELAY_MS`] and
/// [`MAX_DELAY_MS`] that `nanos` selects.
pub open spec fn delay_for(elapsed: int, nanos: u32) -> int {
    if elapsed < MIN_DELAY_MS {
        MIN_DELAY_MS + (nanos as int) % (MAX_DELAY_MS - MIN_DELAY_MS + 1)
    } else {
        0
    }
}

/// The time at which a request that is ready at `now_ms` may be sent: the
/// time at which it is ready, or that at which the last request ended if the
/// clock reads less than that, and then the wait that [`delay_for`] asks for.
/// Times end at the largest that a `u64` holds.
pub open spec fn send_time(last_completed_ms: u64, now_ms: u64, nanos: u32) -> int {
    let ready = if now_ms >= last_completed_ms {
        now_ms
    } else {
        last_completed_ms
    };
    let due = ready + delay_for(ready - last_completed_ms, nanos);
    if due <= u64::MAX {
        due
    } else {
        u64::MAX as int
    }
}

/// What a fetcher remembers between requests: when the last one ended, in
/// milliseconds on the caller's clock, and whether one is under way. All
/// fetches that go through one fetcher share this state.
#[derive(Debug, Clone, Copy, PartialEq, Eq, Structural)]
pub struct FetchState {
    pub last_completed_ms: u64,
    pub busy: bool,
}

impl FetchState {
    /// The state of a fetcher made at `now_ms`: nothing is under way, and its
    /// last request counts as ended ten seconds before, so that its first one
    /// need not wait.
    pub open spec fn new_spec(now_ms: u64) -> FetchState {
        FetchState {
            last_completed_ms: if now_ms >= 10_000 {
                (now_ms - 10_000) as u64
            } else {
                0
            },
            busy: false,
        }
    }

    /// The state of a fetcher made at `now_ms`.
    #[verifier::when_used_as_spec(new_spec)]
    pub fn new(now_ms: u64) -> (state: FetchState)
        ensures
            state == FetchState::new_spec(now_ms),
    {
        FetchState {
            last_completed_ms: if now_ms >= 10_000 {
                now_ms - 10_000
            } else {
                0
            },
            busy: false,
        }
    }

    /// The time at which a request that is ready at `now_ms` may be sent.
    pub fn send_at(&self, now_ms: u64, nanos: u32) -> (due_ms: u64)
        ensures
            due_ms == send_time(self.last_completed_ms, now_ms, nanos),
            due_ms >= now_ms,
            due_ms >= self.last_completed_ms + MIN_DELAY_MS || due_ms == u64::MAX,
    {
        let ready: u64 = if now_ms >= self.last_completed_ms {
            now_ms
        } else {
            self.last_completed_ms
        };
        let wait: u64 = if ready - self.last_completed_ms < MIN_DELAY_MS {
            MIN_DELAY_MS + (nanos as u64) % (MAX_DELAY_MS - MIN_DELAY_MS + 1)
        } else {
            0
        };
        if wait <= u64::MAX - ready {
            ready + wait
        } else {
            u64::MAX
        }
    }

    /// How long, in milliseconds, a request that is ready at `now_ms` has to
    /// wait before it may be sent.
    pub fn request_delay(&self, now_ms: u64, nanos: u32) -> (wait_ms: u64)
        ensures
            wait_ms == send_time(self.last_completed_ms, now_ms, nanos) - now_ms,
            now_ms >= self.last_completed_ms ==> wait_ms == 0 || MIN_DELAY_MS <= wait_ms
                <= MAX_DELAY_MS || now_ms + wait_ms == u64::MAX,
    {
        self.send_at(now_ms, nanos) - now_ms
    }

    /// Notes that a request ended at `at_ms`. A time before the one that is
    /// held changes nothing.
    pub fn record_completion(&mut self, at_ms: u64)
        ensures
            final(self).busy == old(self).busy,
            final(self).last_completed_ms == if at_ms >= old(self).last_completed_ms {
                at_ms
            } else {
                old(self).last_completed_ms
            },
    {
        if at_ms >= self.last_completed_ms {
            self.last_completed_ms = at_ms;
        }
    }
}

/// A request that is sent no earlier than [`send_time`] says ends at least
/// [`MIN_DELAY_MS`] after the request before it ended, as long as the clock
/// has not reached the largest time that it can show.
pub proof fn lemma_requests_are_spaced(state: FetchState, now_ms: u64, nanos: u32, ended_ms: u64)
    requires
        ended_ms >= send_time(state.last_completed_ms, now_ms, nanos),
    ensures
        ended_ms - state.last_completed_ms >= MIN_DELAY_MS || ended_ms == u64::MAX,
{
}

/// Whether a body is the source's notice for automated visitors rather than
/// the page that was asked for.
pub open spec fn is_block_notice(body: Seq<char>) -> bool {
    contains_text(body, "error_info"@) && contains_text(body, "搜索访问太频繁"@)
}

/// Whether `body` is the source's notice for automated visitors.
pub fn is_soft_block(body: &str) -> (blocked: bool)
    ensures
        blocked == is_block_notice(body@),
{
    contains(body, "error_info") && contains(body, "搜索访问太频繁")
}

/// Seconds to stay away after the attempt with the given index met a block
/// notice: one after the first attempt, which has the index zero, and twice
/// as many after each further one, up to the most that a `u64` holds.
pub open spec fn block_backoff_secs(attempt: u32) -> int {
    if attempt < 64 {
        pow2(attempt as nat) as int
    } else {
        u64::MAX as int
    }
}

/// Seconds to stay away after the attempt with the given index failed on the
/// network: one more than the index.
pub open spec fn failure_backoff_secs(attempt: u32) -> int {
    1 + attempt
}

/// Seconds to stay away after the attempt with the given index met a block
/// notice.
pub fn block_backoff(attempt: u32) -> (secs: u64)
    ensures
        secs == block_backoff_secs(attempt),
{
    if attempt >= 64 {
        return u64::MAX;
    }
    let mut secs: u64 = 1;
    let mut i: u32 = 0;
    proof {
        lemma2_to64();
    }
    while i < attempt
        invariant
            attempt < 64,
            i <= attempt,
            secs == pow2(i as nat),
        decreases attempt - i,
    {
        proof {
            lemma_pow2_unfold((i + 1) as nat);
            lemma2_to64_rest();
            if i + 1 < 63 {
                lemma_pow2_strictly_increases((i + 1) as nat, 63);
            }
        }
        secs = secs * 2;
        i += 1;
    }
    secs
}

} // verus!
