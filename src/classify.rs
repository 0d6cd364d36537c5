use vstd::prelude::*;

verus! {

/// Seconds added on top of the server's `retry_after`, to never under-wait.
pub const RATE_LIMIT_PADDING_SECS: u64 = 10;

/// Upper bound on any rate-limit wait, so a misreported hint cannot stall a task.
pub const RATE_LIMIT_WAIT_CAP_SECS: u64 = 20;

/// Status code of a payload that the server refuses as too large.
pub const STATUS_PAYLOAD_TOO_LARGE: u16 = 413;

/// Status code of a rate-limited request.
pub const STATUS_TOO_MANY_REQUESTS: u16 = 429;

/// The server's rate-limit descriptor, as read from a 429 response body.
///
/// `retry_after_ms` is the server's `retry_after` (seconds, fractional)
/// expressed in milliseconds, rounded up.
#[derive(Clone, Copy, Debug, PartialEq, Eq, Structural)]
pub struct RateLimitDescriptor {
    pub retry_after_ms: u64,
    pub global: bool,
}

/// Why a task ended without success.
#[derive(Clone, Copy, Debug, PartialEq, Eq, Structural)]
pub enum Failure {
    /// The server answered 413: resending the same bytes cannot succeed.
    TooLarge,
    /// A success response whose body could not be decoded.
    DecodeFailed,
    /// A 429 response whose body held no usable rate-limit descriptor.
    UnreadableRateLimit,
    /// Any other non-success status.
    UnexpectedStatus(u16),
    /// The retry ceiling was reached.
    MaxAttemptsExceeded,
}

/// The classified result of one attempt.
#[derive(Clone, Debug, PartialEq, Eq)]
pub enum Outcome<T> {
    Success(T),
    /// Throttled: retry after this many seconds.
    RateLimited(u64),
    /// No response was obtained: retry at once.
    TransportFailure,
    /// Terminal; never retried.
    Fatal(Failure),
}

/// One finished HTTP exchange, with its body already decoded by the caller.
///
/// `payload` is the decoded success body (`None` when decoding failed);
/// `rate_limit` is the decoded 429 body (`None` when it could not be read).
#[derive(Clone, Debug)]
pub enum Exchange<T> {
    NoResponse,
    Responded { status: u16, payload: Option<T>, rate_limit: Option<RateLimitDescriptor> },
}

/// Smallest whole number of seconds not below `ms` milliseconds.
pub open spec fn ceil_secs(ms: nat) -> nat {
    if ms % 1000 == 0 { ms / 1000 } else { ms / 1000 + 1 }
}

/// `min(ceil(retry_after) + padding, cap)`, in seconds.
pub open spec fn wait_spec(retry_after_ms: nat) -> nat {
    let padded = (ceil_secs(retry_after_ms) + RATE_LIMIT_PADDING_SECS) as nat;
    if padded < RATE_LIMIT_WAIT_CAP_SECS { padded } else { RATE_LIMIT_WAIT_CAP_SECS as nat }
}

pub open spec fn is_success_status(status: u16) -> bool {
    200 <= status <= 299
}

/// The outcome that a finished exchange stands for.
pub open spec fn outcome_of<T>(e: Exchange<T>) -> Outcome<T> {
    match e {
        Exchange::NoResponse => Outcome::TransportFailure,
        Exchange::Responded { status, payload, rate_limit } => {
            if is_success_status(status) {
                match payload {
                    Some(p) => Outcome::Success(p),
                    None => Outcome::Fatal(Failure::DecodeFailed),
                }
            } else if status == STATUS_TOO_MANY_REQUESTS {
                match rate_limit {
                    Some(d) => Outcome::RateLimited(wait_spec(d.retry_after_ms as nat) as u64),
                    None => Outcome::Fatal(Failure::UnreadableRateLimit),
                }
            } else if status == STATUS_PAYLOAD_TOO_LARGE {
                Outcome::Fatal(Failure::TooLarge)
            } else {
                Outcome::Fatal(Failure::UnexpectedStatus(status))
            }
        },
    }
}

/// The wait never falls short of the server's hint plus the padding, unless
/// the cap cuts it: the policy errs toward waiting too long.
pub proof fn lemma_wait_covers_hint(retry_after_ms: nat)
    ensures
        wait_spec(retry_after_ms) == RATE_LIMIT_WAIT_CAP_SECS
            || wait_spec(retry_after_ms) * 1000 >= retry_after_ms + RATE_LIMIT_PADDING_SECS * 1000,
        wait_spec(retry_after_ms) <= RATE_LIMIT_WAIT_CAP_SECS,
{
    let q = retry_after_ms / 1000;
    let r = retry_after_ms % 1000;
    assert(retry_after_ms == q * 1000 + r && r < 1000);
    assert(ceil_secs(retry_after_ms) * 1000 >= retry_after_ms) by (nonlinear_arith)
        requires
            retry_after_ms == q * 1000 + r,
            r < 1000,
            ceil_secs(retry_after_ms) == (if r == 0 { q } else { q + 1 }),
    ;
}

/// Seconds to wait before retrying a throttled request whose `retry_after`
/// is `retry_after_ms` milliseconds.
pub fn rate_limit_wait_secs(retry_after_ms: u64) -> (r: u64)
    ensures
        r as nat == wait_spec(retry_after_ms as nat),
        RATE_LIMIT_PADDING_SECS <= r <= RATE_LIMIT_WAIT_CAP_SECS,
{
    let whole = retry_after_ms / 1000;
    let secs = if retry_after_ms % 1000 == 0 { whole } else { whole + 1 };
    if secs < RATE_LIMIT_WAIT_CAP_SECS - RATE_LIMIT_PADDING_SECS {
        secs + RATE_LIMIT_PADDING_SECS
    } else {
        RATE_LIMIT_WAIT_CAP_SECS
    }
}

/// Classifies one finished exchange into exactly one outcome.
pub fn classify<T>(e: Exchange<T>) -> (r: Outcome<T>)
    ensures
        r == outcome_of(e),
{
    match e {
        Exchange::NoResponse => Outcome::TransportFailure,
        Exchange::Responded { status, payload, rate_limit } => {
            if 200 <= status && status <= 299 {
                match payload {
                    Some(p) => Outcome::Success(p),
                    None => Outcome::Fatal(Failure::DecodeFailed),
                }
            } else if status == STATUS_TOO_MANY_REQUESTS {
                match rate_limit {
                    Some(d) => Outcome::RateLimited(rate_limit_wait_secs(d.retry_after_ms)),
                    None => Outcome::Fatal(Failure::UnreadableRateLimit),
                }
            } else if status == STATUS_PAYLOAD_TOO_LARGE {
                Outcome::Fatal(Failure::TooLarge)
            } else {
                Outcome::Fatal(Failure::UnexpectedStatus(status))
            }
        },
    }
}

} // verus!
