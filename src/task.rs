use vstd::prelude::*;

use crate::notify::{
    arm_model, idle_model, take_model, wake_model, Notifier, NotifierModel,
};
use crate::prime_checker::{
    initial_model, is_prime, lemma_verdict_below_two, lemma_verdict_is_primality, step_model,
    trial_division_verdict, CheckerModel, PrimeChecker, Step,
};

verus! {

/// The abstract state of a task: its computation and its readiness flag.
pub struct TaskModel {
    pub checker: CheckerModel,
    pub notifier: NotifierModel,
}

/// The notifier state that a step leaves behind: the waker of a pending step
/// is keyed by the cursor it moved to; a finished computation arms nothing.
pub open spec fn notifier_after(checker: CheckerModel, r: Step) -> NotifierModel {
    if r == Step::Pending {
        arm_model(checker.cursor as u64)
    } else {
        idle_model()
    }
}

/// A computation driven to completion together with the readiness flag that
/// its wakers signal: one owned block of state behind one guard.
pub struct Task {
    checker: PrimeChecker,
    notifier: Notifier,
}

impl View for Task {
    type V = TaskModel;

    closed spec fn view(&self) -> TaskModel {
        TaskModel { checker: self.checker@, notifier: self.notifier@ }
    }
}

/// Once a step has finished the computation no waker is armed, so any wake
/// that arrives later, whatever its token, changes nothing.
pub proof fn lemma_wake_after_finish_is_noop(checker: CheckerModel, b: bool, token: u64)
    requires
        step_model(checker).1 == Step::Done(b),
    ensures
        wake_model(notifier_after(step_model(checker).0, Step::Done(b)), token)
            == notifier_after(step_model(checker).0, Step::Done(b)),
{
}

impl Task {
    /// The task's invariant: its computation is well formed.
    pub closed spec fn wf(&self) -> bool {
        self.checker.wf()
    }

    /// A task that tests `number`, with nothing armed.
    pub fn new(number: u64) -> (r: Self)
        ensures
            r.wf(),
            r@ == (TaskModel { checker: initial_model(number as int), notifier: idle_model() }),
    {
        Task { checker: PrimeChecker::new(number), notifier: Notifier::new() }
    }

    /// Steps the computation once. A pending step arms a fresh waker keyed by
    /// the new cursor; a finished one retires whatever waker was armed.
    pub fn poll(&mut self) -> (r: Step)
        requires
            old(self).wf(),
        ensures
            final(self).wf(),
            (final(self)@.checker, r) == step_model(old(self)@.checker),
            final(self)@.notifier == notifier_after(final(self)@.checker, r),
            r matches Step::Done(b) ==> b == trial_division_verdict(old(self)@.checker.number),
    {
        let r = self.checker.poll_prime();
        match r {
            Step::Pending => {
                let token = self.checker.current();
                self.notifier.arm(token);
            },
            Step::Done(_) => {
                self.notifier.disarm();
            },
        }
        r
    }

    /// Delivers a wake from the waker identified by `token`. The computation
    /// is never touched; a stale token changes nothing at all.
    pub fn wake(&mut self, token: u64)
        requires
            old(self).wf(),
        ensures
            final(self).wf(),
            final(self)@.checker == old(self)@.checker,
            final(self)@.notifier == wake_model(old(self)@.notifier, token),
    {
        self.notifier.wake(token);
    }

    /// The waiting side's look at the flag: whether a wake arrived, which is
    /// then cleared.
    pub fn take_wake(&mut self) -> (r: bool)
        requires
            old(self).wf(),
        ensures
            final(self).wf(),
            final(self)@.checker == old(self)@.checker,
            (final(self)@.notifier, r) == take_model(old(self)@.notifier),
    {
        self.notifier.take()
    }

    /// The token of the waker armed by the last pending step, if any.
    pub fn waker_token(&self) -> (r: Option<u64>)
        ensures
            r == self@.notifier.armed,
    {
        self.notifier.armed()
    }

    /// The input under test.
    pub fn number(&self) -> (r: u64)
        ensures
            r as int == self@.checker.number,
    {
        self.checker.number()
    }

    /// The verdict, once the computation has finished.
    pub fn result(&self) -> (r: Option<bool>)
        ensures
            r == self@.checker.result,
    {
        self.checker.result()
    }
}

/// Tests `number` by driving a task to completion on the calling thread. The
/// executor itself is the readiness source: after each pending step it fires
/// the armed waker and then waits, which returns at once since the wake that
/// came first is not lost.
pub fn is_prime_number(number: u64) -> (r: bool)
    ensures
        r == trial_division_verdict(number as int),
        number >= 2 ==> r == is_prime(number as int),
        number < 2 ==> r,
{
    let mut task = Task::new(number);
    loop
        invariant
            task.wf(),
            task@.checker.number == number,
            task@.checker.result == None::<bool>,
            2 <= task@.checker.cursor <= number + 2,
        decreases number + 2 - task@.checker.cursor,
    {
        let ghost before = task@.checker;
        match task.poll() {
            Step::Done(b) => {
                proof {
                    if number >= 2 {
                        lemma_verdict_is_primality(number as int);
                    } else {
                        lemma_verdict_below_two(number as int);
                    }
                }
                return b;
            },
            Step::Pending => {
                assert(before.cursor < number) by (nonlinear_arith)
                    requires
                        2 <= before.cursor,
                        before.cursor * before.cursor <= number,
                ;
                if let Some(token) = task.waker_token() {
                    task.wake(token);
                }
                let woken = task.take_wake();
                assert(woken);
            },
        }
    }
}

} // verus!
