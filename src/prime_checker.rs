use vstd::prelude::*;

verus! {

/// Whether `n` has a divisor `d` with `d >= 2` and `d * d <= n`: what trial
/// division up to the square root looks for.
pub open spec fn has_small_divisor(n: int) -> bool {
    exists|d: int| 2 <= d && d * d <= n && #[trigger] (n % d) == 0
}

/// The textbook definition: `n >= 2` and no `d` with `2 <= d < n` divides it.
pub open spec fn is_prime(n: int) -> bool {
    &&& n >= 2
    &&& forall|d: int| 2 <= d < n ==> #[trigger] (n % d) != 0
}

/// What trial division concludes about `n`: prime unless a small divisor
/// exists. For `n < 2` no candidate is ever tried, so this is `true` there.
pub open spec fn trial_division_verdict(n: int) -> bool {
    !has_small_divisor(n)
}

/// The outcome of one step of the computation.
#[derive(Clone, Copy, Debug, PartialEq, Eq, Structural)]
pub enum Step {
    /// The computation is finished; `true` means prime.
    Done(bool),
    /// One more candidate was ruled out; the computation must be resumed.
    Pending,
}

/// The abstract state of a checker: the input, the next divisor candidate
/// and the verdict once it is known.
pub struct CheckerModel {
    pub number: int,
    pub cursor: int,
    pub result: Option<bool>,
}

/// One step on the abstract state: the new state and what the step reports.
pub open spec fn step_model(s: CheckerModel) -> (CheckerModel, Step) {
    match s.result {
        Some(b) => (s, Step::Done(b)),
        None => if s.cursor * s.cursor > s.number {
            (CheckerModel { result: Some(true), ..s }, Step::Done(true))
        } else if s.number % s.cursor == 0 {
            (CheckerModel { result: Some(false), ..s }, Step::Done(false))
        } else {
            (CheckerModel { cursor: s.cursor + 1, ..s }, Step::Pending)
        },
    }
}

/// The state in which a computation on `number` starts.
pub open spec fn initial_model(number: int) -> CheckerModel {
    CheckerModel { number, cursor: 2, result: None }
}

/// For every `n >= 2`, trial division up to the square root gives exactly the
/// textbook answer.
pub proof fn lemma_verdict_is_primality(n: int)
    requires
        n >= 2,
    ensures
        trial_division_verdict(n) == is_prime(n),
{
    if has_small_divisor(n) {
        let d = choose|d: int| 2 <= d && d * d <= n && #[trigger] (n % d) == 0;
        assert(d < n) by (nonlinear_arith)
            requires
                2 <= d,
                d * d <= n,
        ;
        assert(!is_prime(n));
    }
    if !is_prime(n) {
        let d = choose|d: int| 2 <= d < n && #[trigger] (n % d) == 0;
        if d * d > n {
            let e = n / d;
            vstd::arithmetic::div_mod::lemma_fundamental_div_mod(n, d);
            assert(n == d * e);
            assert(2 <= e && e * e <= n) by (nonlinear_arith)
                requires
                    2 <= d < n,
                    n == d * e,
                    d * d > n,
            ;
            vstd::arithmetic::div_mod::lemma_mod_multiples_basic(d, e);
            assert(n % e == 0) by {
                vstd::arithmetic::mul::lemma_mul_is_commutative(d, e);
            };
        }
        assert(has_small_divisor(n));
    }
}

/// Inputs below 2 try no candidate at all, so trial division calls them prime.
pub proof fn lemma_verdict_below_two(n: int)
    requires
        n < 2,
    ensures
        trial_division_verdict(n),
{
    if has_small_divisor(n) {
        let d = choose|d: int| 2 <= d && d * d <= n && #[trigger] (n % d) == 0;
        assert(d * d >= 4) by (nonlinear_arith)
            requires
                2 <= d,
        ;
    }
}

/// Once a step reports `Done(b)`, every later step reports `Done(b)` again and
/// leaves the state, the cursor included, as it is.
pub proof fn lemma_done_is_absorbing(s: CheckerModel, b: bool)
    requires
        step_model(s).1 == Step::Done(b),
    ensures
        step_model(step_model(s).0) == (step_model(s).0, Step::Done(b)),
        step_model(step_model(s).0).0.cursor == s.cursor,
{
}

/// The cursor never moves back: a `Pending` step moves it on by exactly one,
/// any other step leaves it where it was.
pub proof fn lemma_cursor_advances_by_one(s: CheckerModel)
    ensures
        step_model(s).1 == Step::Pending ==> step_model(s).0.cursor == s.cursor + 1,
        step_model(s).1 != Step::Pending ==> step_model(s).0.cursor == s.cursor,
        step_model(s).0.cursor >= s.cursor,
        step_model(s).0.number == s.number,
{
}

/// A resumable primality test by trial division: each step rules out at most
/// one divisor candidate.
pub struct PrimeChecker {
    number: u64,
    current: u64,
    is_prime: Option<bool>,
}

impl View for PrimeChecker {
    type V = CheckerModel;

    closed spec fn view(&self) -> CheckerModel {
        CheckerModel { number: self.number as int, cursor: self.current as int, result: self.is_prime }
    }
}

proof fn lemma_square_grows(c: int, d: int)
    requires
        0 <= c <= d,
    ensures
        c * c <= d * d,
{
    assert(c * c <= d * d) by (nonlinear_arith)
        requires
            0 <= c <= d,
    ;
}

impl PrimeChecker {
    /// The checker's invariant: candidates below the cursor have been ruled
    /// out, and a verdict, once set, is the one trial division gives.
    pub closed spec fn wf(&self) -> bool {
        &&& 2 <= self.current
        &&& forall|d: int| 2 <= d < self.current ==> #[trigger] ((self.number as int) % d) != 0
        &&& self.is_prime matches Some(b) ==> b == trial_division_verdict(self.number as int)
    }

    /// A checker for `number`, with the cursor at 2 and no verdict yet.
    pub fn new(number: u64) -> (r: Self)
        ensures
            r.wf(),
            r@ == initial_model(number as int),
    {
        Self { number, current: 2, is_prime: None }
    }

    /// The input under test.
    pub fn number(&self) -> (r: u64)
        ensures
            r as int == self@.number,
    {
        self.number
    }

    /// The next divisor candidate.
    pub fn current(&self) -> (r: u64)
        ensures
            r as int == self@.cursor,
    {
        self.current
    }

    /// The verdict, once the computation has finished.
    pub fn result(&self) -> (r: Option<bool>)
        ensures
            r == self@.result,
    {
        self.is_prime
    }

    /// Performs one step: reports a cached verdict unchanged, or decides the
    /// verdict at the cursor, or rules out the cursor and moves it on by one.
    pub fn poll_prime(&mut self) -> (r: Step)
        requires
            old(self).wf(),
        ensures
            final(self).wf(),
            (final(self)@, r) == step_model(old(self)@),
            r matches Step::Done(b) ==> b == trial_division_verdict(old(self)@.number),
    {
        if let Some(result) = self.is_prime {
            return Step::Done(result);
        }
        let c = self.current;
        let n = self.number;
        assert((c as int) * (c as int) < 0x1_0000_0000_0000_0000_0000_0000_0000_0000) by (nonlinear_arith)
            requires
                0 <= c < 0x1_0000_0000_0000_0000,
        ;
        let square: u128 = (c as u128) * (c as u128);
        if square <= n as u128 {
            if n % c == 0 {
                assert(has_small_divisor(n as int)) by {
                    assert((n as int) % (c as int) == 0);
                };
                self.is_prime = Some(false);
                return Step::Done(false);
            }
            assert(c < n) by (nonlinear_arith)
                requires
                    2 <= c,
                    c * c <= n,
            ;
            self.current = c + 1;
            assert forall|d: int| 2 <= d < self.current implies #[trigger] ((n as int) % d) != 0 by {
                if d < c {
                } else {
                    assert(d == c);
                }
            };
            return Step::Pending;
        }
        assert(!has_small_divisor(n as int)) by {
            if has_small_divisor(n as int) {
                let d = choose|d: int| 2 <= d && d * d <= n && #[trigger] ((n as int) % d) == 0;
                if d >= c {
                    lemma_square_grows(c as int, d);
                }
            }
        };
        self.is_prime = Some(true);
        Step::Done(true)
    }
}

} // verus!
