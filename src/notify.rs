use vstd::prelude::*;

verus! {

/// The abstract state of a notifier: the token of the waker that the most
/// recent pending step handed out, if any, and whether it has fired since.
pub struct NotifierModel {
    pub armed: Option<u64>,
    pub woken: bool,
}

/// A notifier with no waker handed out and no wake pending.
pub open spec fn idle_model() -> NotifierModel {
    NotifierModel { armed: None, woken: false }
}

/// Hands out a fresh waker identified by `token`; an earlier wake is dropped.
pub open spec fn arm_model(token: u64) -> NotifierModel {
    NotifierModel { armed: Some(token), woken: false }
}

/// A waker fires: it counts only while its token is the armed one.
pub open spec fn wake_model(s: NotifierModel, token: u64) -> NotifierModel {
    if s.armed == Some(token) {
        NotifierModel { woken: true, ..s }
    } else {
        s
    }
}

/// The waiting side looks at the flag and clears it.
pub open spec fn take_model(s: NotifierModel) -> (NotifierModel, bool) {
    (NotifierModel { woken: false, ..s }, s.woken)
}

/// A wake that lands before the wait begins is not lost: the next look at the
/// flag sees it, however many times the waker fired.
pub proof fn lemma_no_lost_wakeup(token: u64, fired: nat)
    requires
        fired >= 1,
    ensures
        fire_n(arm_model(token), token, fired) == (NotifierModel { armed: Some(token), woken: true }),
        take_model(fire_n(arm_model(token), token, fired)).1,
    decreases fired,
{
    if fired == 1 {
        assert(fire_n(arm_model(token), token, 0) == arm_model(token));
    } else {
        lemma_no_lost_wakeup(token, (fired - 1) as nat);
    }
}

/// The state after a waker with `token` fired `k` times in a row.
pub open spec fn fire_n(s: NotifierModel, token: u64, k: nat) -> NotifierModel
    decreases k,
{
    if k == 0 {
        s
    } else {
        wake_model(fire_n(s, token, (k - 1) as nat), token)
    }
}

/// Firing a waker again changes nothing beyond what the first firing did.
pub proof fn lemma_wake_idempotent(s: NotifierModel, token: u64)
    ensures
        wake_model(wake_model(s, token), token) == wake_model(s, token),
{
}

/// A waker whose token is not the armed one, a stale one or one fired after
/// the computation finished, leaves the notifier as it is.
pub proof fn lemma_stale_wake_is_noop(s: NotifierModel, token: u64)
    requires
        s.armed != Some(token),
    ensures
        wake_model(s, token) == s,
{
}

/// The readiness flag shared between the side that wakes and the side that
/// waits, keyed by the token of the waker handed out last.
pub struct Notifier {
    armed: Option<u64>,
    woken: bool,
}

impl View for Notifier {
    type V = NotifierModel;

    closed spec fn view(&self) -> NotifierModel {
        NotifierModel { armed: self.armed, woken: self.woken }
    }
}

impl Notifier {
    /// A notifier with nothing armed.
    pub fn new() -> (r: Self)
        ensures
            r@ == idle_model(),
    {
        Notifier { armed: None, woken: false }
    }

    /// Arms the waker identified by `token`, replacing any earlier one.
    pub fn arm(&mut self, token: u64)
        ensures
            final(self)@ == arm_model(token),
    {
        self.armed = Some(token);
        self.woken = false;
    }

    /// Retires the armed waker: every later wake is a no-op.
    pub fn disarm(&mut self)
        ensures
            final(self)@ == idle_model(),
    {
        self.armed = None;
        self.woken = false;
    }

    /// Signals readiness on behalf of the waker identified by `token`.
    pub fn wake(&mut self, token: u64)
        ensures
            final(self)@ == wake_model(old(self)@, token),
    {
        if self.armed == Some(token) {
            self.woken = true;
        }
    }

    /// Reports whether a wake arrived since the last look, and clears it.
    pub fn take(&mut self) -> (r: bool)
        ensures
            (final(self)@, r) == take_model(old(self)@),
    {
        let r = self.woken;
        self.woken = false;
        r
    }

    /// The token of the armed waker, if any.
    pub fn armed(&self) -> (r: Option<u64>)
        ensures
            r == self@.armed,
    {
        self.armed
    }
}

} // verus!
