use vstd::prelude::*;

use crate::errors::{CustomError, ErrorView};
use crate::text::{decimal, decimal_text, lemma_decimal_injective};

verus! {

/// Requests that a client may make in one minute.
pub const MAX_REQUESTS_PER_MINUTE: u64 = 10;

/// Seconds that a rate counter lives after its last increment.
pub const RATE_LIMIT_TTL_SECONDS: u64 = 60;

/// The key of the counter of `ip_addr` in the window of minute `minute`.
pub open spec fn rate_key(ip_addr: Seq<char>, minute: u32) -> Seq<char> {
    "rate_limit:"@ + ip_addr + ":"@ + decimal(minute as nat)
}

/// The outcome of a request that brought its window's counter to `count`,
/// under a limit of `permitted` requests.
pub open spec fn admission(count: u64, permitted: u64) -> Result<(), ErrorView> {
    if count > permitted {
        Err(ErrorView::TooManyRequests(count, permitted))
    } else {
        Ok(())
    }
}

/// Relies on chrono's `Utc::now` and `Timelike::minute`: the minute of the
/// current UTC hour, from 0 to 59.
#[verifier::external_body]
fn current_minute() -> (r: u32)
    ensures
        r < 60,
{
    chrono::Timelike::minute(&chrono::Utc::now())
}

/// The address that a request is counted under: the peer's IP address. A
/// request whose peer address is unknown cannot be counted and fails.
pub fn client_address(peer_ip: Option<String>) -> (r: Result<String, CustomError>)
    ensures
        match peer_ip {
            Some(ip) => (r matches Ok(a) && a@ == ip@),
            None => (r matches Err(e) && e@ == ErrorView::Internal),
        },
{
    match peer_ip {
        Some(ip) => Ok(ip),
        None => Err(CustomError::InternalError),
    }
}

/// With the limit of ten, the tenth request of a window is admitted and the
/// eleventh is refused with the count eleven and the limit ten; a request in
/// another minute counts under a key of its own, so the first request there
/// is admitted again.
pub proof fn lemma_rate_limit_boundary(
    limiter: RateLimitingService,
    ip_addr: Seq<char>,
    minute: u32,
    other_minute: u32,
)
    requires
        limiter.permitted() == MAX_REQUESTS_PER_MINUTE,
        minute != other_minute,
    ensures
        admission(10, limiter.permitted()) == Ok::<(), ErrorView>(()),
        admission(11, limiter.permitted()) == Err::<(), ErrorView>(
            ErrorView::TooManyRequests(11, 10),
        ),
        rate_key(ip_addr, minute) != rate_key(ip_addr, other_minute),
        admission(1, limiter.permitted()) == Ok::<(), ErrorView>(()),
{
    let prefix = "rate_limit:"@ + ip_addr + ":"@;
    let a = decimal(minute as nat);
    let b = decimal(other_minute as nat);
    if rate_key(ip_addr, minute) == rate_key(ip_addr, other_minute) {
        assert((prefix + a).subrange(prefix.len() as int, (prefix + a).len() as int) =~= a);
        assert((prefix + b).subrange(prefix.len() as int, (prefix + b).len() as int) =~= b);
        lemma_decimal_injective(minute as nat, other_minute as nat);
    }
}

/// The fixed-window rate limiter. A request of a client increments, in one
/// atomic step together with a reset of its time-to-live, the counter under
/// the key of the client and the current wall-clock minute; the count that
/// results decides.
#[derive(Debug)]
pub struct RateLimitingService {
    max_requests_per_minute: u64,
}

impl RateLimitingService {
    /// Requests permitted per client and minute.
    pub closed spec fn permitted(&self) -> u64 {
        self.max_requests_per_minute
    }

    /// A limiter that permits ten requests per client and minute.
    pub fn new() -> (r: Self)
        ensures
            r.permitted() == MAX_REQUESTS_PER_MINUTE,
    {
        RateLimitingService { max_requests_per_minute: MAX_REQUESTS_PER_MINUTE }
    }

    /// A limiter that permits `max_requests_per_minute` requests per client
    /// and minute.
    pub fn with_limit(max_requests_per_minute: u64) -> (r: Self)
        ensures
            r.permitted() == max_requests_per_minute,
    {
        RateLimitingService { max_requests_per_minute }
    }

    /// The counter key of `ip_addr` in minute `minute`.
    pub fn rate_limit_key(&self, ip_addr: &str, minute: u32) -> (r: String)
        ensures
            r@ == rate_key(ip_addr@, minute),
    {
        let mut key = String::from_str("rate_limit:");
        key.append(ip_addr);
        key.append(":");
        let m = decimal_text(minute as u64);
        key.append(m.as_str());
        key
    }

    /// The counter key of `ip_addr` in the current minute.
    pub fn current_rate_limit_key(&self, ip_addr: &str) -> (r: String)
        ensures
            exists|m: u32| m < 60 && r@ == rate_key(ip_addr@, m),
    {
        let minute = current_minute();
        self.rate_limit_key(ip_addr, minute)
    }

    /// Admits a request that brought its counter to `count`, or fails with
    /// TooManyRequests carrying that count and the limit.
    pub fn assert_rate_limit_not_exceeded(&self, count: u64) -> (r: Result<(), CustomError>)
        ensures
            r is Ok <==> admission(count, self.permitted()) is Ok,
            r matches Err(e) ==> admission(count, self.permitted()) == Err::<(), ErrorView>(e@),
    {
        if count > self.max_requests_per_minute {
            Err(
                CustomError::TooManyRequests {
                    actual_count: count,
                    permitted_count: self.max_requests_per_minute,
                },
            )
        } else {
            Ok(())
        }
    }
}

} // verus!
