//! Admission by rate: one token bucket per client address.
//!
//! A bucket holds up to `capacity` tokens. Each admitted request takes one;
//! time gives them back at `refill_rate` tokens a second.

use std::time::{Duration, Instant};
use vstd::hash_map::StringHashMap;
use vstd::prelude::*;
use crate::config::TokenBucketConfig;
use crate::errors::app_error::AppError;

verus! {

/// The longest time, in seconds, that one refill accounts for.
pub const MAX_ELAPSED_SECS: u64 = 100;

/// A reading of the monotonic clock.
#[verifier::external_type_specification]
#[verifier::external_body]
pub struct ExInstant(std::time::Instant);

/// `Instant::now`: the current reading of the monotonic clock. Nothing is
/// claimed of it.
#[verifier::external_body]
fn clock_now() -> Instant {
    Instant::now()
}

/// `Instant::duration_since`: the time from `earlier` to `later`, zero
/// where `later` is not after `earlier`. Nothing is claimed of it.
#[verifier::external_body]
fn time_between(later: &Instant, earlier: &Instant) -> Duration {
    later.duration_since(*earlier)
}

/// `Duration::as_secs`: the whole seconds of a duration. Nothing is claimed
/// of it.
#[verifier::external_body]
fn whole_seconds(duration: &Duration) -> u64 {
    duration.as_secs()
}

/// The smaller of two numbers.
pub open spec fn least(a: int, b: int) -> int {
    if a <= b {
        a
    } else {
        b
    }
}

/// The tokens of a bucket after `elapsed_secs` seconds: at most a hundred
/// seconds count, each worth `refill_rate` tokens; what is gained stops at
/// 255, and the bucket never holds more than its capacity.
pub open spec fn refilled(token: u8, capacity: u8, refill_rate: u8, elapsed_secs: u64) -> u8 {
    let gained = least(least(elapsed_secs as int, MAX_ELAPSED_SECS as int) * refill_rate, 255);
    least(least(token + gained, 255), capacity as int) as u8
}

/// The tokens left to one client.
#[derive(Clone, Copy)]
pub struct TokenBucket {
    pub token: u8,
    pub capacity: u8,
    pub refill_rate: u8,
    pub last_refill: Instant,
}

impl TokenBucket {
    /// A full bucket, last refilled now.
    pub fn new(config: TokenBucketConfig) -> (bucket: Self)
        ensures
            bucket.token == config.capacity,
            bucket.capacity == config.capacity,
            bucket.refill_rate == config.refill_rate,
    {
        TokenBucket {
            token: config.capacity,
            capacity: config.capacity,
            refill_rate: config.refill_rate,
            last_refill: clock_now(),
        }
    }

    /// Gives the bucket the tokens that `elapsed_secs` seconds are worth.
    pub fn refill_after(&mut self, elapsed_secs: u64)
        ensures
            final(self).token == refilled(
                old(self).token,
                old(self).capacity,
                old(self).refill_rate,
                elapsed_secs,
            ),
            final(self).capacity == old(self).capacity,
            final(self).refill_rate == old(self).refill_rate,
            final(self).last_refill == old(self).last_refill,
    {
        let counted: u32 = if elapsed_secs < MAX_ELAPSED_SECS {
            elapsed_secs as u32
        } else {
            MAX_ELAPSED_SECS as u32
        };
        assert(counted * self.refill_rate <= 100 * 255) by (nonlinear_arith)
            requires
                counted <= 100,
                self.refill_rate <= 255,
        ;
        let product: u32 = counted * (self.refill_rate as u32);
        let gained: u32 = if product < 255 {
            product
        } else {
            255
        };
        let sum: u32 = self.token as u32 + gained;
        let filled: u32 = if sum < 255 {
            sum
        } else {
            255
        };
        self.token = if filled < self.capacity as u32 {
            filled as u8
        } else {
            self.capacity
        };
    }

    /// Gives the bucket the tokens that the time since its last refill is
    /// worth, and notes the time. The clock decides how long that was: the
    /// new count is the refill for some number of seconds.
    pub fn refill(&mut self)
        ensures
            (exists|elapsed_secs: u64|
                final(self).token == #[trigger] refilled(
                    old(self).token,
                    old(self).capacity,
                    old(self).refill_rate,
                    elapsed_secs,
                )),
            final(self).capacity == old(self).capacity,
            final(self).refill_rate == old(self).refill_rate,
    {
        let now = clock_now();
        let elapsed = time_between(&now, &self.last_refill);
        let elapsed_secs = whole_seconds(&elapsed);
        self.refill_after(elapsed_secs);
        self.last_refill = now;
    }

    /// Takes one token where one is left, and says whether it did.
    pub fn take(&mut self) -> (taken: bool)
        ensures
            taken == (old(self).token > 0),
            final(self).token == if taken {
                (old(self).token - 1) as u8
            } else {
                0
            },
            final(self).capacity == old(self).capacity,
            final(self).refill_rate == old(self).refill_rate,
            final(self).last_refill == old(self).last_refill,
    {
        if self.token == 0 {
            return false;
        }
        self.token -= 1;
        true
    }
}

/// The buckets of all clients, by client address.
pub struct RateLimiter {
    pub clients: StringHashMap<TokenBucket>,
}

/// The bucket that a request of the client at `address` draws on: the
/// client's own, or a full one for a client not seen before.
pub open spec fn drawn_on(clients: Map<Seq<char>, TokenBucket>, address: Seq<char>) -> (u8, u8, u8) {
    if clients.contains_key(address) {
        (clients[address].token, clients[address].capacity, clients[address].refill_rate)
    } else {
        (100, 100, 1)
    }
}

/// A request of the client at `address` was served after `elapsed_secs`
/// seconds: the client's bucket was refilled for that time, the request was
/// admitted exactly when the bucket then held a token, which it took, and
/// the buckets of other clients stayed as they were.
pub open spec fn served(
    before: Map<Seq<char>, TokenBucket>,
    address: Seq<char>,
    elapsed_secs: u64,
    admitted: bool,
    after: Map<Seq<char>, TokenBucket>,
) -> bool {
    let (token, capacity, refill_rate) = drawn_on(before, address);
    let full = refilled(token, capacity, refill_rate, elapsed_secs);
    &&& admitted == (full > 0)
    &&& after.dom() == before.dom().insert(address)
    &&& after[address].token == if admitted {
        (full - 1) as u8
    } else {
        0
    }
    &&& after[address].capacity == capacity
    &&& after[address].refill_rate == refill_rate
    &&& after.remove(address) == before.remove(address)
}

impl RateLimiter {
    /// A limiter that has seen no client.
    pub fn new() -> (limiter: Self)
        ensures
            limiter.clients@ == Map::<Seq<char>, TokenBucket>::empty(),
    {
        RateLimiter { clients: StringHashMap::new() }
    }

    /// Decides on one request of the client at `client_ip`: the client's
    /// bucket is refilled for the time gone by, and the request is admitted
    /// exactly when the bucket then holds a token, which the request takes.
    /// The buckets of other clients stay as they are.
    pub fn check_limit(&mut self, client_ip: String) -> (admitted: bool)
        ensures
            (exists|elapsed_secs: u64| #[trigger]
                served(
                    old(self).clients@,
                    client_ip@,
                    elapsed_secs,
                    admitted,
                    final(self).clients@,
                )),
    {
        let mut bucket = match self.clients.get(client_ip.as_str()) {
            Some(known) => *known,
            None => TokenBucket::new(TokenBucketConfig::new()),
        };
        let ghost drawn = bucket;
        bucket.refill();
        let ghost elapsed_secs = choose|elapsed_secs: u64|
            bucket.token == #[trigger] refilled(
                drawn.token,
                drawn.capacity,
                drawn.refill_rate,
                elapsed_secs,
            );
        let admitted = bucket.take();
        self.clients.insert(client_ip, bucket);
        proof {
            assert(self.clients@.remove(client_ip@) =~= old(self).clients@.remove(client_ip@));
            assert(self.clients@.dom() =~= old(self).clients@.dom().insert(client_ip@));
            assert(served(old(self).clients@, client_ip@, elapsed_secs, admitted, self.clients@));
        }
        admitted
    }

    /// Decides on one request by the address of its peer: a request without
    /// an address is the server's own failure and touches no bucket; a
    /// request with one passes exactly when `check_limit` admits it, and is
    /// refused for its rate otherwise.
    pub fn admission(&mut self, peer: Option<String>) -> (result: Result<(), AppError>)
        ensures
            match peer {
                Some(client_ip) => {
                    &&& exists|elapsed_secs: u64| #[trigger]
                        served(
                            old(self).clients@,
                            client_ip@,
                            elapsed_secs,
                            result is Ok,
                            final(self).clients@,
                        )
                    &&& result is Err ==> result == Err::<(), AppError>(
                        AppError::RateLimitExceeded,
                    )
                },
                None => {
                    &&& result matches Err(AppError::InternalServerError(text))
                    &&& text@ == "No IP found"@
                    &&& final(self).clients@ == old(self).clients@
                },
            },
    {
        match peer {
            Some(client_ip) => {
                if self.check_limit(client_ip) {
                    Ok(())
                } else {
                    Err(AppError::RateLimitExceeded)
                }
            },
            None => Err(AppError::InternalServerError("No IP found".to_string())),
        }
    }
}

} // verus!
