//! Decision logic of a single page fetch.
//!
//! One page fetch is a short dialogue with the transport: build the URL,
//! send a GET, look at what came back, and either finish, or wait one
//! second and try again. The requests themselves are made by the
//! surrounding binary; this module owns every decision in between, as a
//! step function from the fetch's state and the attempt's outcome to what
//! happens next.

use vstd::prelude::*;

use crate::structs::Auctions;

verus! {

/// How many attempts a single page fetch makes before giving up on a
/// response body that does not parse as an envelope.
pub const MAX_ATTEMPTS: u32 = 3;

/// The character for one decimal digit.
pub open spec fn digit_char(d: nat) -> char {
    if d == 0 {
        '0'
    } else if d == 1 {
        '1'
    } else if d == 2 {
        '2'
    } else if d == 3 {
        '3'
    } else if d == 4 {
        '4'
    } else if d == 5 {
        '5'
    } else if d == 6 {
        '6'
    } else if d == 7 {
        '7'
    } else if d == 8 {
        '8'
    } else {
        '9'
    }
}

/// The decimal digits of `n`, most significant first, with no sign and no
/// leading zeroes (a single `'0'` for zero).
pub open spec fn decimal_chars(n: nat) -> Seq<char>
    decreases n,
{
    if n < 10 {
        seq![digit_char(n)]
    } else {
        decimal_chars(n / 10).push(digit_char(n % 10))
    }
}

/// The request URL for one page: the fixed endpoint with the page index
/// interpolated in decimal.
pub open spec fn page_url_spec(page: nat) -> Seq<char> {
    "https://api.hypixel.net/v2/skyblock/auctions?page="@ + decimal_chars(page)
}

/// Append the decimal rendering of `n` to `s`.
fn push_decimal(s: &mut String, n: u32)
    ensures
        final(s)@ == old(s)@ + decimal_chars(n as nat),
    decreases n,
{
    if n >= 10 {
        push_decimal(s, n / 10);
    }
    let d: u32 = n % 10;
    proof {
        reveal_strlit("0");
        reveal_strlit("1");
        reveal_strlit("2");
        reveal_strlit("3");
        reveal_strlit("4");
        reveal_strlit("5");
        reveal_strlit("6");
        reveal_strlit("7");
        reveal_strlit("8");
        reveal_strlit("9");
    }
    let digit: &str = if d == 0 {
        "0"
    } else if d == 1 {
        "1"
    } else if d == 2 {
        "2"
    } else if d == 3 {
        "3"
    } else if d == 4 {
        "4"
    } else if d == 5 {
        "5"
    } else if d == 6 {
        "6"
    } else if d == 7 {
        "7"
    } else if d == 8 {
        "8"
    } else {
        "9"
    };
    assert(digit@ =~= seq![digit_char(d as nat)]);
    s.append(digit);
    proof {
        if n >= 10 {
            assert(decimal_chars(n as nat) =~= decimal_chars((n / 10) as nat) + seq![
                digit_char((n % 10) as nat),
            ]);
        } else {
            assert(decimal_chars(n as nat) =~= seq![digit_char(n as nat)]);
        }
    }
}

/// The request URL for `page`, built by interpolating the page index into
/// the fixed feed endpoint.
pub fn page_url(page: u32) -> (r: String)
    ensures
        r@ == page_url_spec(page as nat),
{
    let mut s: String = String::from_str("https://api.hypixel.net/v2/skyblock/auctions?page=");
    push_decimal(&mut s, page);
    s
}

/// Why a page fetch failed.
pub enum FetchError {
    /// A connection, timeout or body-read failure; never retried.
    /// Carries a description of the underlying cause.
    Transport { cause: String },
    /// The response body did not match the envelope shape on any attempt.
    /// Carries the request URL and the number of attempts made.
    ParseExhausted { url: String, attempts: u32 },
}

/// The in-flight state of one page fetch: which page is wanted, the
/// request URL, and how many attempts have already failed to parse.
pub struct FetchAttempt {
    pub page: u32,
    pub url: String,
    pub attempt: u32,
}

/// What one HTTP attempt produced, as the decision logic sees it.
pub enum AttemptEvent {
    /// Sending the request, or reading its body, failed at the transport
    /// level.
    TransportFailed { cause: String },
    /// The server answered with a non-success HTTP status.
    HttpFailure,
    /// The response body parsed into a page envelope.
    Parsed { envelope: Auctions },
    /// The response body was not a valid envelope.
    Malformed,
}

/// What a page fetch does next, decided after one attempt.
pub enum AttemptStep {
    /// The fetch is over, with its envelope or its error.
    Done { result: Result<Auctions, FetchError> },
    /// Wait one second, then make one more request with this state.
    RetryAfterDelay { state: FetchAttempt },
}

/// The transition relation of a page fetch, one attempt at a time:
/// `step_rel(state, event, r)` holds exactly when reacting to `event` in
/// `state` yields `r`.
///
/// - A transport failure ends the fetch at once with that error.
/// - A non-success HTTP status degrades silently: the fetch ends with an
///   empty envelope, not an error.
/// - A parsed body ends the fetch with that envelope.
/// - A malformed body is retried while attempts remain; when the last
///   attempt is malformed too, the fetch ends with `ParseExhausted`.
pub open spec fn step_rel(state: FetchAttempt, event: AttemptEvent, r: AttemptStep) -> bool {
    match event {
        AttemptEvent::TransportFailed { cause } => r == (AttemptStep::Done {
            result: Err(FetchError::Transport { cause }),
        }),
        AttemptEvent::HttpFailure => {
            &&& r matches AttemptStep::Done { result }
            &&& result matches Ok(env)
            &&& env.is_empty_envelope()
        },
        AttemptEvent::Parsed { envelope } => r == (AttemptStep::Done { result: Ok(envelope) }),
        AttemptEvent::Malformed => {
            if state.attempt + 1 < MAX_ATTEMPTS {
                r == (AttemptStep::RetryAfterDelay {
                    state: FetchAttempt {
                        page: state.page,
                        url: state.url,
                        attempt: (state.attempt + 1) as u32,
                    },
                })
            } else {
                r == (AttemptStep::Done {
                    result: Err(FetchError::ParseExhausted {
                        url: state.url,
                        attempts: MAX_ATTEMPTS,
                    }),
                })
            }
        },
    }
}

impl FetchAttempt {
    /// The state of a fetch of `page` before its first request: the URL
    /// is built from the page index, and no attempt has failed yet.
    pub fn start(page: u32) -> (r: FetchAttempt)
        ensures
            r.page == page,
            r.url@ == page_url_spec(page as nat),
            r.attempt == 0,
    {
        FetchAttempt { page, url: page_url(page), attempt: 0 }
    }

    /// Decide what the fetch does after one attempt produced `event`.
    pub fn step(self, event: AttemptEvent) -> (r: AttemptStep)
        requires
            self.attempt < MAX_ATTEMPTS,
        ensures
            step_rel(self, event, r),
    {
        match event {
            AttemptEvent::TransportFailed { cause } => AttemptStep::Done {
                result: Err(FetchError::Transport { cause }),
            },
            AttemptEvent::HttpFailure => AttemptStep::Done { result: Ok(Auctions::empty()) },
            AttemptEvent::Parsed { envelope } => AttemptStep::Done { result: Ok(envelope) },
            AttemptEvent::Malformed => {
                if self.attempt + 1 < MAX_ATTEMPTS {
                    AttemptStep::RetryAfterDelay {
                        state: FetchAttempt {
                            page: self.page,
                            url: self.url,
                            attempt: self.attempt + 1,
                        },
                    }
                } else {
                    AttemptStep::Done {
                        result: Err(FetchError::ParseExhausted {
                            url: self.url,
                            attempts: MAX_ATTEMPTS,
                        }),
                    }
                }
            },
        }
    }
}

/// A fetch whose body is malformed on its first two attempts and parses
/// on the third ends successfully with that third envelope.
pub proof fn malformed_twice_then_parsed_succeeds(
    s0: FetchAttempt,
    env: Auctions,
    r1: AttemptStep,
    r2: AttemptStep,
    r3: AttemptStep,
)
    requires
        s0.attempt == 0,
        step_rel(s0, AttemptEvent::Malformed, r1),
        r1 matches AttemptStep::RetryAfterDelay { state: s1 } && step_rel(
            s1,
            AttemptEvent::Malformed,
            r2,
        ),
        r2 matches AttemptStep::RetryAfterDelay { state: s2 } && step_rel(
            s2,
            AttemptEvent::Parsed { envelope: env },
            r3,
        ),
    ensures
        r3 == (AttemptStep::Done { result: Ok(env) }),
{
}

/// A fetch whose body is malformed on every one of its three attempts
/// ends with `ParseExhausted`, carrying the request URL and the attempt
/// cap.
pub proof fn malformed_thrice_exhausts(
    s0: FetchAttempt,
    r1: AttemptStep,
    r2: AttemptStep,
    r3: AttemptStep,
)
    requires
        s0.attempt == 0,
        step_rel(s0, AttemptEvent::Malformed, r1),
        r1 matches AttemptStep::RetryAfterDelay { state: s1 } && step_rel(
            s1,
            AttemptEvent::Malformed,
            r2,
        ),
        r2 matches AttemptStep::RetryAfterDelay { state: s2 } && step_rel(
            s2,
            AttemptEvent::Malformed,
            r3,
        ),
    ensures
        r3 == (AttemptStep::Done {
            result: Err(FetchError::ParseExhausted { url: s0.url, attempts: MAX_ATTEMPTS }),
        }),
{
}

} // verus!
