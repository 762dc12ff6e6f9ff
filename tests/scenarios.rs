use prime_checker::notify::Notifier;
use prime_checker::prime_checker::{PrimeChecker, Step};
use prime_checker::task::{is_prime_number, Task};

fn naive_is_prime(n: u64) -> bool {
    if n < 2 {
        return false;
    }
    let mut d = 2;
    while d < n {
        if n % d == 0 {
            return false;
        }
        d += 1;
    }
    true
}

/// Polls until done, returning the verdict and the number of pending steps.
fn drive(checker: &mut PrimeChecker) -> (bool, u64) {
    let mut pending = 0;
    loop {
        match checker.poll_prime() {
            Step::Done(b) => return (b, pending),
            Step::Pending => pending += 1,
        }
    }
}

#[test]
fn known_values() {
    assert!(is_prime_number(29));
    assert!(!is_prime_number(28));
    assert!(!is_prime_number(4));
    assert!(is_prime_number(2));
    assert!(is_prime_number(3));
    assert!(!is_prime_number(9));
    assert!(!is_prime_number(25));
    assert!(is_prime_number(7919));
    assert!(!is_prime_number(7917));
}

#[test]
fn agrees_with_definition_below_two_thousand() {
    for n in 2..2000u64 {
        assert_eq!(is_prime_number(n), naive_is_prime(n), "n = {}", n);
    }
}

#[test]
fn largest_input_is_handled() {
    // u64::MAX is divisible by 3.
    assert!(!is_prime_number(u64::MAX));
    let mut c = PrimeChecker::new(u64::MAX);
    assert_eq!(c.poll_prime(), Step::Pending);
    assert_eq!(c.poll_prime(), Step::Done(false));
    assert_eq!(c.current(), 3);
}

#[test]
fn large_prime_stays_pending_without_overflow() {
    let mut c = PrimeChecker::new(18446744073709551557);
    for i in 0..10_000u64 {
        assert_eq!(c.poll_prime(), Step::Pending);
        assert_eq!(c.current(), 3 + i);
    }
    assert_eq!(c.result(), None);
}

#[test]
fn twenty_nine_after_four_pending_steps() {
    let mut c = PrimeChecker::new(29);
    let mut cursors = vec![c.current()];
    loop {
        match c.poll_prime() {
            Step::Pending => cursors.push(c.current()),
            Step::Done(b) => {
                assert!(b);
                break;
            }
        }
    }
    assert_eq!(cursors, vec![2, 3, 4, 5, 6]);
    assert_eq!(c.result(), Some(true));
}

#[test]
fn twenty_eight_on_first_check() {
    let mut c = PrimeChecker::new(28);
    assert_eq!(c.poll_prime(), Step::Done(false));
    assert_eq!(c.current(), 2);
}

#[test]
fn nine_when_cursor_reaches_three() {
    let mut c = PrimeChecker::new(9);
    assert_eq!(c.poll_prime(), Step::Pending);
    assert_eq!(c.current(), 3);
    assert_eq!(c.poll_prime(), Step::Done(false));
    assert_eq!(c.current(), 3);
}

#[test]
fn two_is_done_immediately() {
    let mut c = PrimeChecker::new(2);
    assert_eq!(c.poll_prime(), Step::Done(true));
    assert_eq!(c.current(), 2);
}

#[test]
fn zero_and_one_are_reported_prime() {
    assert!(is_prime_number(0));
    assert!(is_prime_number(1));
    let mut c = PrimeChecker::new(0);
    assert_eq!(c.poll_prime(), Step::Done(true));
    let mut c = PrimeChecker::new(1);
    assert_eq!(c.poll_prime(), Step::Done(true));
}

#[test]
fn done_is_repeated_without_moving_cursor() {
    for n in [2u64, 9, 28, 29, 97, 100] {
        let mut c = PrimeChecker::new(n);
        let (b, _) = drive(&mut c);
        let cursor = c.current();
        for _ in 0..3 {
            assert_eq!(c.poll_prime(), Step::Done(b));
            assert_eq!(c.current(), cursor);
            assert_eq!(c.result(), Some(b));
        }
    }
}

#[test]
fn cursor_moves_by_exactly_one_per_pending_step() {
    let mut c = PrimeChecker::new(1009);
    let mut last = c.current();
    assert_eq!(last, 2);
    loop {
        let r = c.poll_prime();
        match r {
            Step::Pending => assert_eq!(c.current(), last + 1),
            Step::Done(_) => {
                assert_eq!(c.current(), last);
                break;
            }
        }
        last = c.current();
    }
    assert_eq!(c.result(), Some(true));
}

#[test]
fn new_checker_starts_at_two() {
    let c = PrimeChecker::new(41);
    assert_eq!(c.number(), 41);
    assert_eq!(c.current(), 2);
    assert_eq!(c.result(), None);
}

#[test]
fn wake_before_wait_is_not_lost() {
    let mut t = Task::new(29);
    assert_eq!(t.poll(), Step::Pending);
    let token = t.waker_token().unwrap();
    assert_eq!(token, 3);
    t.wake(token);
    assert!(t.take_wake());
    assert!(!t.take_wake());
}

#[test]
fn repeated_wakes_count_once() {
    let mut n = Notifier::new();
    n.arm(7);
    n.wake(7);
    n.wake(7);
    n.wake(7);
    assert!(n.take());
    assert!(!n.take());
}

#[test]
fn stale_token_does_not_wake_next_step() {
    let mut t = Task::new(29);
    assert_eq!(t.poll(), Step::Pending);
    let first = t.waker_token().unwrap();
    t.wake(first);
    assert!(t.take_wake());
    assert_eq!(t.poll(), Step::Pending);
    let second = t.waker_token().unwrap();
    assert_ne!(first, second);
    t.wake(first);
    assert!(!t.take_wake());
    t.wake(second);
    assert!(t.take_wake());
}

#[test]
fn wake_after_finish_is_harmless() {
    let mut t = Task::new(28);
    assert_eq!(t.poll(), Step::Done(false));
    assert_eq!(t.waker_token(), None);
    for token in [0u64, 2, 3, u64::MAX] {
        t.wake(token);
        assert!(!t.take_wake());
    }
    assert_eq!(t.result(), Some(false));
    assert_eq!(t.poll(), Step::Done(false));
    assert_eq!(t.number(), 28);
}

#[test]
fn late_wake_of_finished_prime_keeps_result() {
    let mut t = Task::new(29);
    let mut last_token = None;
    loop {
        match t.poll() {
            Step::Pending => {
                last_token = t.waker_token();
                t.wake(last_token.unwrap());
                assert!(t.take_wake());
            }
            Step::Done(b) => {
                assert!(b);
                break;
            }
        }
    }
    t.wake(last_token.unwrap());
    assert!(!t.take_wake());
    assert_eq!(t.result(), Some(true));
}

#[test]
fn disarmed_notifier_ignores_wakes() {
    let mut n = Notifier::new();
    assert_eq!(n.armed(), None);
    n.wake(0);
    assert!(!n.take());
    n.arm(4);
    n.wake(4);
    n.disarm();
    assert!(!n.take());
    assert_eq!(n.armed(), None);
}
