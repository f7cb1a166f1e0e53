//! Admission control: what every request passes before a handler sees it.
//!
//! The stages run in a fixed order. The origin check comes first. The
//! concurrency limit guards against too many requests in flight at once,
//! whatever their rate; the rate limit guards the sustained throughput,
//! however few requests are in flight. A request that one stage turns away
//! costs nothing at the stages after it.

use crate::error::GatewayError;
use vstd::prelude::*;

verus! {

/// What a `RateLimiter` holds.
pub struct RateView {
    /// Requests admitted per window.
    pub rate: nat,
    /// Length of a window.
    pub per: nat,
    /// Start of the current window, once a request has opened one.
    pub window: Option<nat>,
    /// Requests admitted in the current window.
    pub used: nat,
}

/// Admits at most `rate` requests per window of length `per`. A window opens
/// with the first request that arrives when none is open.
#[derive(Debug)]
pub struct RateLimiter {
    rate: u64,
    per: u64,
    window: Option<u64>,
    used: u64,
}

/// Whether a request at `now` finds no window open.
pub open spec fn opens_window(v: RateView, now: u64) -> bool {
    match v.window {
        None => true,
        Some(start) => now >= start + v.per,
    }
}

/// The limiter after a request at `now`, and whether the request is admitted.
pub open spec fn rate_spec(v: RateView, now: u64) -> (RateView, bool) {
    let w = if opens_window(v, now) {
        RateView { window: Some(now as nat), used: 0, ..v }
    } else {
        v
    };
    if w.used < w.rate {
        (RateView { used: w.used + 1, ..w }, true)
    } else {
        (w, false)
    }
}

/// The limiter after requests at `times`, in that order, and how many of
/// them were admitted.
pub open spec fn rate_all_spec(v: RateView, times: Seq<u64>) -> (RateView, nat)
    decreases times.len(),
{
    if times.len() == 0 {
        (v, 0)
    } else {
        let (w, n) = rate_all_spec(v, times.drop_last());
        let (x, admitted) = rate_spec(w, times.last());
        (
            x,
            if admitted {
                n + 1
            } else {
                n
            },
        )
    }
}

impl View for RateLimiter {
    type V = RateView;

    closed spec fn view(&self) -> RateView {
        RateView {
            rate: self.rate as nat,
            per: self.per as nat,
            window: match self.window {
                Some(start) => Some(start as nat),
                None => None,
            },
            used: self.used as nat,
        }
    }
}

impl RateLimiter {
    #[verifier::type_invariant]
    spec fn wf(&self) -> bool {
        self.used <= self.rate && self.rate > 0 && self.per > 0
    }

    /// A limiter of `rate` requests per window of length `per`. Neither may
    /// be zero.
    pub fn new(rate: u64, per: u64) -> (r: Result<Self, GatewayError>)
        ensures
            match r {
                Ok(limiter) => rate > 0 && per > 0 && limiter@ == (RateView {
                    rate: rate as nat,
                    per: per as nat,
                    window: None,
                    used: 0,
                }),
                Err(e) => (rate == 0 || per == 0) && e == GatewayError::ConfigError,
            },
    {
        if rate == 0 || per == 0 {
            return Err(GatewayError::ConfigError);
        }
        Ok(RateLimiter { rate, per, window: None, used: 0 })
    }

    /// Decides on a request that arrives at `now`.
    pub fn allow(&mut self, now: u64) -> (r: bool)
        ensures
            (final(self)@, r) == rate_spec(old(self)@, now),
            final(self)@.used <= final(self)@.rate,
    {
        proof {
            use_type_invariant(&*self);
        }
        let fresh = match self.window {
            None => true,
            Some(start) => now >= start && now - start >= self.per,
        };
        if fresh {
            self.used = 0;
            self.window = Some(now);
        }
        if self.used < self.rate {
            self.used = self.used + 1;
            true
        } else {
            false
        }
    }
}

/// While a window is open, the limiter admits requests until the window's
/// budget is used up and none after that: of `times.len()` requests that all
/// arrive before the window ends, it admits as many as the budget has left.
pub proof fn lemma_window_budget(v: RateView, times: Seq<u64>)
    requires
        v.used <= v.rate,
        v.window is Some,
        forall|i: int| 0 <= i < times.len() ==> times[i] < v.window->Some_0 + v.per,
    ensures
        ({
            let (w, admitted) = rate_all_spec(v, times);
            &&& admitted == if times.len() <= v.rate - v.used {
                times.len()
            } else {
                (v.rate - v.used) as nat
            }
            &&& w == RateView { used: v.used + admitted, ..v }
        }),
    decreases times.len(),
{
    if times.len() > 0 {
        lemma_window_budget(v, times.drop_last());
    }
}

/// A request that finds no window open opens one and is admitted, and the
/// window it opens has a budget of `rate - 1` left: so of any requests that
/// arrive within one window length of the first, at most `rate` get through.
pub proof fn lemma_at_most_rate_per_window(v: RateView, first: u64, rest: Seq<u64>)
    requires
        v.rate > 0,
        opens_window(v, first),
        forall|i: int| 0 <= i < rest.len() ==> rest[i] < first + v.per,
    ensures
        rate_spec(v, first).1,
        ({
            let (w, admitted) = rate_all_spec(rate_spec(v, first).0, rest);
            1 + admitted == if rest.len() + 1 <= v.rate {
                rest.len() + 1
            } else {
                v.rate
            }
        }),
{
    lemma_window_budget(rate_spec(v, first).0, rest);
}

/// Admits a request only while fewer than `limit` are in flight.
#[derive(Debug)]
pub struct ConcurrencyLimiter {
    limit: usize,
    in_flight: usize,
}

/// What a `ConcurrencyLimiter` holds.
pub struct ConcurrencyView {
    pub limit: nat,
    pub in_flight: nat,
}

impl View for ConcurrencyLimiter {
    type V = ConcurrencyView;

    closed spec fn view(&self) -> ConcurrencyView {
        ConcurrencyView { limit: self.limit as nat, in_flight: self.in_flight as nat }
    }
}

impl ConcurrencyLimiter {
    #[verifier::type_invariant]
    spec fn wf(&self) -> bool {
        self.in_flight <= self.limit
    }

    /// A limiter with nothing in flight.
    pub fn new(limit: usize) -> (r: Self)
        ensures
            r@ == (ConcurrencyView { limit: limit as nat, in_flight: 0 }),
    {
        ConcurrencyLimiter { limit, in_flight: 0 }
    }

    /// Takes a slot for a request, if one is free.
    pub fn try_acquire(&mut self) -> (r: bool)
        ensures
            r == (old(self)@.in_flight < old(self)@.limit),
            final(self)@.limit == old(self)@.limit,
            final(self)@.in_flight == if r {
                old(self)@.in_flight + 1
            } else {
                old(self)@.in_flight
            },
            final(self)@.in_flight <= final(self)@.limit,
    {
        proof {
            use_type_invariant(&*self);
        }
        if self.in_flight < self.limit {
            self.in_flight = self.in_flight + 1;
            true
        } else {
            false
        }
    }

    /// Gives back the slot of a request that has finished. With nothing in
    /// flight there is nothing to give back.
    pub fn release(&mut self)
        ensures
            final(self)@.limit == old(self)@.limit,
            final(self)@.in_flight == if old(self)@.in_flight > 0 {
                (old(self)@.in_flight - 1) as nat
            } else {
                0
            },
    {
        proof {
            use_type_invariant(&*self);
        }
        if self.in_flight > 0 {
            self.in_flight = self.in_flight - 1;
        }
    }
}

/// What an `Admission` holds.
pub struct AdmissionView {
    pub allowed_origin: Seq<char>,
    pub concurrency: ConcurrencyView,
    pub rate: RateView,
}

/// The admission stages of the gateway, in their order.
#[derive(Debug)]
pub struct Admission {
    allowed_origin: String,
    concurrency: ConcurrencyLimiter,
    rate: RateLimiter,
}

/// Whether a request may come from `origin`: one that names no origin is not
/// a cross-origin request; one that names an origin must name the allowed
/// one.
pub open spec fn origin_allowed(origin: Option<&str>, allowed: Seq<char>) -> bool {
    match origin {
        None => true,
        Some(o) => o@ == allowed,
    }
}

/// The stages after a request from `origin` at `now`, and the verdict.
pub open spec fn admission_spec(v: AdmissionView, origin: Option<&str>, now: u64) -> (
    AdmissionView,
    Result<(), GatewayError>,
) {
    if !origin_allowed(origin, v.allowed_origin) {
        (v, Err(GatewayError::OriginNotAllowed))
    } else if v.concurrency.in_flight >= v.concurrency.limit {
        (v, Err(GatewayError::AdmissionRejected))
    } else {
        let (rate, admitted) = rate_spec(v.rate, now);
        if admitted {
            (
                AdmissionView {
                    concurrency: ConcurrencyView {
                        in_flight: v.concurrency.in_flight + 1,
                        ..v.concurrency
                    },
                    rate,
                    ..v
                },
                Ok(()),
            )
        } else {
            (AdmissionView { rate, ..v }, Err(GatewayError::AdmissionRejected))
        }
    }
}

/// The stages after an admitted request has finished.
pub open spec fn done_spec(v: AdmissionView) -> AdmissionView {
    AdmissionView {
        concurrency: ConcurrencyView {
            in_flight: if v.concurrency.in_flight > 0 {
                (v.concurrency.in_flight - 1) as nat
            } else {
                0
            },
            ..v.concurrency
        },
        ..v
    }
}

impl View for Admission {
    type V = AdmissionView;

    closed spec fn view(&self) -> AdmissionView {
        AdmissionView {
            allowed_origin: self.allowed_origin@,
            concurrency: self.concurrency@,
            rate: self.rate@,
        }
    }
}

impl Admission {
    /// Stages for the allowed origin, at most `concurrency_limit` requests in
    /// flight and at most `rate` requests per window of length `per`.
    /// Neither limit may be zero, nor the window.
    pub fn new(allowed_origin: String, concurrency_limit: usize, rate: u64, per: u64) -> (r: Result<
        Self,
        GatewayError,
    >)
        ensures
            match r {
                Ok(a) => concurrency_limit > 0 && rate > 0 && per > 0 && a@ == (AdmissionView {
                    allowed_origin: allowed_origin@,
                    concurrency: ConcurrencyView { limit: concurrency_limit as nat, in_flight: 0 },
                    rate: RateView { rate: rate as nat, per: per as nat, window: None, used: 0 },
                }),
                Err(e) => (concurrency_limit == 0 || rate == 0 || per == 0) && e
                    == GatewayError::ConfigError,
            },
    {
        if concurrency_limit == 0 {
            return Err(GatewayError::ConfigError);
        }
        let rate = match RateLimiter::new(rate, per) {
            Ok(rate) => rate,
            Err(e) => {
                return Err(e);
            },
        };
        let concurrency = ConcurrencyLimiter::new(concurrency_limit);
        Ok(Admission { allowed_origin, concurrency, rate })
    }

    /// Decides on a request from `origin` that arrives at `now`. For every
    /// request that is admitted, `done` is to be called once when it has
    /// finished.
    pub fn enter(&mut self, origin: Option<&str>, now: u64) -> (r: Result<(), GatewayError>)
        ensures
            (final(self)@, r) == admission_spec(old(self)@, origin, now),
    {
        if let Some(o) = origin {
            if o.to_owned() != self.allowed_origin {
                return Err(GatewayError::OriginNotAllowed);
            }
        }
        if !self.concurrency.try_acquire() {
            return Err(GatewayError::AdmissionRejected);
        }
        if !self.rate.allow(now) {
            self.concurrency.release();
            return Err(GatewayError::AdmissionRejected);
        }
        Ok(())
    }

    /// Records that an admitted request has finished.
    pub fn done(&mut self)
        ensures
            final(self)@ == done_spec(old(self)@),
    {
        self.concurrency.release();
    }
}

} // verus!
