//! The keep-alive guard: a service decorator that fails the pipeline once no
//! request has been serviced within a rolling deadline.
//!
//! The clock and the wake timer are collaborators owned by the surrounding
//! connection task: the caller reads the low-resolution clock, keeps a timer
//! armed, and reports on each readiness check the current instant (in
//! milliseconds) and whether the armed timer has fired. The guard decides;
//! the caller performs the one action it can ask for, re-arming the timer.

use vstd::prelude::*;

verus! {

/// What a readiness check of the guard reports.
pub enum Readiness<E> {
    /// The service may accept work; the timer is left as it is.
    Ready,
    /// The service may accept work, but the timer fired against a deadline
    /// that has been extended since it was armed: the caller must re-arm the
    /// timer to this instant (and may poll it once, best effort).
    Rearm(u64),
    /// The deadline has passed: the pipeline stage is failed with this error
    /// and must not be polled again for new work.
    Expired(E),
}

/// The timeout condition: a readiness check reports the expiry error exactly
/// when the armed timer has fired and the deadline has passed.
pub open spec fn times_out(expire: u64, now: u64, fired: bool) -> bool {
    fired && now >= expire
}

/// A factory for keep-alive guards: one `KeepAliveService` per connection,
/// all sharing the keep-alive duration and the error factory.
#[verifier::reject_recursive_types(E)]
pub struct KeepAlive<R, E, F> where F: Fn() -> E {
    f: F,
    ka: u64,
    _t: core::marker::PhantomData<(R, E)>,
}

impl<R, E, F> KeepAlive<R, E, F> where F: Fn() -> E + Clone {
    /// The keep-alive duration, in milliseconds.
    pub closed spec fn ka(&self) -> u64 {
        self.ka
    }

    /// The error factory handed to every service this factory produces.
    pub closed spec fn err_factory(&self) -> F {
        self.f
    }

    /// A factory with keep-alive duration `ka` (milliseconds) and the given
    /// error factory.
    pub fn new(ka: u64, f: F) -> (s: Self)
        ensures
            s.ka() == ka,
            s.err_factory() == f,
    {
        KeepAlive { f, ka, _t: core::marker::PhantomData }
    }

    /// A fresh guard for one connection, with its deadline a full keep-alive
    /// duration from `now`. The error factory is a clone of the factory's.
    pub fn new_service(&self, now: u64) -> (s: KeepAliveService<R, E, F>)
        requires
            now + self.ka() <= u64::MAX,
        ensures
            s.wf(),
            s.ka() == self.ka(),
            s.expire() == now + self.ka(),
            s.armed() == s.expire(),
            s.now_lb() == now,
    {
        KeepAliveService::new(self.ka, now, self.f.clone())
    }
}

impl<R, E, F> Clone for KeepAlive<R, E, F> where F: Fn() -> E + Clone {
    fn clone(&self) -> (s: Self)
        ensures
            s.ka() == self.ka(),
    {
        KeepAlive { f: self.f.clone(), ka: self.ka, _t: core::marker::PhantomData }
    }
}

/// The keep-alive guard of one connection: a deadline instant and the record
/// of the instant its wake timer is armed to. Instants are milliseconds on
/// the caller's monotone low-resolution clock.
#[verifier::reject_recursive_types(E)]
pub struct KeepAliveService<R, E, F> where F: Fn() -> E {
    f: F,
    ka: u64,
    expire: u64,
    armed: u64,
    now_lb: Ghost<u64>,
    _t: core::marker::PhantomData<(R, E)>,
}

impl<R, E, F> KeepAliveService<R, E, F> where F: Fn() -> E {
    /// The keep-alive duration, in milliseconds.
    pub closed spec fn ka(&self) -> u64 {
        self.ka
    }

    /// The deadline: the instant after which the connection counts as idle.
    pub closed spec fn expire(&self) -> u64 {
        self.expire
    }

    /// The instant the caller's wake timer is armed to.
    pub closed spec fn armed(&self) -> u64 {
        self.armed
    }

    /// A lower bound on the clock: every instant this guard has seen.
    pub closed spec fn now_lb(&self) -> u64 {
        self.now_lb@
    }

    /// The error factory consulted when the deadline passes.
    pub closed spec fn err_factory(&self) -> F {
        self.f
    }

    /// The guard's invariant: the timer is never armed past the deadline,
    /// and the deadline never lies further than one keep-alive duration past
    /// the last instant seen.
    pub open spec fn wf(&self) -> bool {
        &&& self.armed() <= self.expire()
        &&& self.expire() <= self.now_lb() + self.ka()
    }

    /// A fresh guard whose deadline and armed instant are a full keep-alive
    /// duration from `now`.
    pub fn new(ka: u64, now: u64, f: F) -> (s: Self)
        requires
            now + ka <= u64::MAX,
        ensures
            s.wf(),
            s.ka() == ka,
            s.expire() == now + ka,
            s.armed() == s.expire(),
            s.now_lb() == now,
            s.err_factory() == f,
    {
        let expire = now + ka;
        KeepAliveService { f, ka, expire, armed: expire, now_lb: Ghost(now), _t: core::marker::PhantomData }
    }

    /// The keep-alive duration this guard was built with, in milliseconds.
    pub fn keep_alive(&self) -> (k: u64)
        ensures
            k == self.ka(),
    {
        self.ka
    }

    /// One readiness check. `now` is the current instant on the monotone
    /// clock; `fired` says whether the armed timer has fired.
    ///
    /// If the timer has not fired, work may proceed and nothing changes. If
    /// it fired and the deadline has passed, the stage fails with the
    /// factory's error, exactly when `times_out` holds. If it fired but the
    /// deadline was extended since the timer was armed, the caller is told to
    /// re-arm the timer to the deadline and work may proceed: no false
    /// timeout.
    pub fn poll_ready(&mut self, now: u64, fired: bool) -> (r: Readiness<E>)
        requires
            old(self).wf(),
            now >= old(self).now_lb(),
            call_requires(old(self).err_factory(), ()),
        ensures
            final(self).wf(),
            final(self).ka() == old(self).ka(),
            final(self).expire() == old(self).expire(),
            final(self).err_factory() == old(self).err_factory(),
            final(self).now_lb() == now,
            (r is Expired) <==> times_out(old(self).expire(), now, fired),
            r matches Readiness::Expired(e) ==> call_ensures(old(self).err_factory(), (), e)
                && final(self).armed() == old(self).armed(),
            !fired ==> r is Ready && final(self).armed() == old(self).armed(),
            fired && now < old(self).expire() ==> r == Readiness::<E>::Rearm(old(self).expire())
                && final(self).armed() == old(self).expire(),
    {
        self.now_lb = Ghost(now);
        if fired {
            if self.expire <= now {
                Readiness::Expired((self.f)())
            } else {
                self.armed = self.expire;
                Readiness::Rearm(self.expire)
            }
        } else {
            Readiness::Ready
        }
    }

    /// One serviced unit of work: the request passes through unchanged and
    /// the deadline is extended to a full keep-alive duration from `now`.
    /// The deadline only ever moves forward. The timer is not re-armed here;
    /// that correction happens lazily on the next readiness check.
    pub fn call(&mut self, now: u64, req: R) -> (r: R)
        requires
            old(self).wf(),
            now >= old(self).now_lb(),
            now + old(self).ka() <= u64::MAX,
        ensures
            final(self).wf(),
            final(self).ka() == old(self).ka(),
            final(self).expire() == now + old(self).ka(),
            final(self).expire() >= old(self).expire(),
            final(self).armed() == old(self).armed(),
            final(self).err_factory() == old(self).err_factory(),
            final(self).now_lb() == now,
            r == req,
    {
        self.now_lb = Ghost(now);
        self.expire = now + self.ka;
        req
    }
}

/// Keep-alive liveness, one window at a time: if the deadline stands a full
/// keep-alive duration past some serviced instant `last`, then a readiness
/// check at any instant within that window cannot report a timeout, whether
/// or not the timer fired.
pub proof fn lemma_keep_alive_liveness(expire: u64, last: u64, ka: u64, now: u64, fired: bool)
    requires
        expire == last + ka,
        now < last + ka,
    ensures
        !times_out(expire, now, fired),
{
}

/// Once the deadline has passed it stays passed: every later readiness check
/// whose timer has fired reports the timeout, so the guard never recovers.
pub proof fn lemma_keep_alive_expiry(expire: u64, now: u64)
    requires
        now >= expire,
    ensures
        forall|later: u64, fired: bool| later >= now && fired ==> times_out(expire, later, fired),
{
}

} // verus!
