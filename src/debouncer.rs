//! Rate limiting of an action: it runs only when enough time has passed since it last ran.
use vstd::prelude::*;
use std::time::Instant;

verus! {

#[verifier::external_type_specification]
#[verifier::external_body]
pub struct ExInstant(Instant);

/// Relies on `Instant::now`: the current instant of the monotonic clock.
#[verifier::external_body]
fn clock_now() -> Instant {
    Instant::now()
}

/// Relies on `Instant::elapsed`: the whole milliseconds since `origin`; the
/// value depends on the clock.
#[verifier::external_body]
fn millis_since(origin: &Instant) -> u64 {
    origin.elapsed().as_millis() as u64
}

/// Runs an action on an object at most once per `min_dt` milliseconds.
pub struct Debouncer<F> {
    min_dt_ms: u64,
    last_t_ms: u64,
    origin: Instant,
    fun: F,
}

impl<F> Debouncer<F> {
    /// The least time, in milliseconds, that must pass between two runs.
    pub closed spec fn min_dt(&self) -> u64 {
        self.min_dt_ms
    }

    /// The action.
    pub closed spec fn action(&self) -> F {
        self.fun
    }

    /// When the action last ran, or the debouncer was made, in milliseconds
    /// since it was made.
    pub closed spec fn last_t(&self) -> u64 {
        self.last_t_ms
    }

    /// A debouncer for `fun` with a minimum interval of `ms` milliseconds,
    /// counting from now.
    pub fn from_millis(ms: u64, fun: F) -> (r: Debouncer<F>)
        ensures
            r.min_dt() == ms,
            r.last_t() == 0,
    {
        Debouncer { min_dt_ms: ms, last_t_ms: 0, origin: clock_now(), fun }
    }

    /// Decides, at `now_ms` milliseconds since the debouncer was made, whether
    /// the action runs: exactly when more than the minimum interval has passed
    /// since it last ran. If so, `now_ms` becomes the time of the last run.
    pub fn debounce_at(&mut self, now_ms: u64) -> (r: bool)
        ensures
            r == (now_ms > old(self).last_t() && now_ms - old(self).last_t() > old(self).min_dt()),
            final(self).min_dt() == old(self).min_dt(),
            final(self).action() == old(self).action(),
            r ==> final(self).last_t() == now_ms,
            !r ==> final(self).last_t() == old(self).last_t(),
    {
        if now_ms > self.last_t_ms && now_ms - self.last_t_ms > self.min_dt_ms {
            self.last_t_ms = now_ms;
            true
        } else {
            false
        }
    }

    /// Runs the action on `obj` if more than the minimum interval has passed
    /// since it last ran, by the clock. Returns whether it ran.
    pub fn debounce<A>(&mut self, obj: &mut A) -> (r: bool)
        where
            F: FnMut(&mut A),
        requires
            forall|a: &mut A| old(self).action().requires((a,)),
        ensures
            final(self).min_dt() == old(self).min_dt(),
            r ==> final(self).last_t() > old(self).last_t() + old(self).min_dt(),
            !r ==> final(self).last_t() == old(self).last_t(),
    {
        let now = millis_since(&self.origin);
        if self.debounce_at(now) {
            (self.fun)(obj);
            true
        } else {
            false
        }
    }
}

} // verus!
