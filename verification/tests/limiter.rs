use challenges::limiter::{Acquire, Limiter};

#[test]
fn a_new_limiter_has_all_permits_free() {
    let limiter = Limiter::new(3);
    assert_eq!(limiter.capacity(), 3);
    assert_eq!(limiter.in_use(), 0);
    assert_eq!(limiter.waiting(), 0);
}

#[test]
fn permits_are_granted_up_to_the_capacity() {
    let mut limiter = Limiter::new(2);
    assert_eq!(limiter.acquire(1), Acquire::Granted);
    assert_eq!(limiter.acquire(2), Acquire::Granted);
    assert_eq!(limiter.in_use(), 2);
    assert_eq!(limiter.acquire(3), Acquire::Queued);
    assert_eq!(limiter.acquire(4), Acquire::Queued);
    assert_eq!(limiter.in_use(), 2);
    assert_eq!(limiter.waiting(), 2);
}

#[test]
fn a_permit_given_back_goes_to_the_caller_that_waited_longest() {
    let mut limiter = Limiter::new(1);
    assert_eq!(limiter.acquire(10), Acquire::Granted);
    assert_eq!(limiter.acquire(20), Acquire::Queued);
    assert_eq!(limiter.acquire(30), Acquire::Queued);
    assert_eq!(limiter.release(), Some(20));
    assert_eq!(limiter.in_use(), 1);
    assert_eq!(limiter.release(), Some(30));
    assert_eq!(limiter.in_use(), 1);
    assert_eq!(limiter.release(), None);
    assert_eq!(limiter.in_use(), 0);
    assert_eq!(limiter.acquire(40), Acquire::Granted);
}

#[test]
fn a_release_with_no_permit_out_changes_nothing() {
    let mut limiter = Limiter::new(2);
    assert_eq!(limiter.release(), None);
    assert_eq!(limiter, Limiter::new(2));
}

#[test]
fn a_limiter_without_permits_queues_everyone() {
    let mut limiter = Limiter::new(0);
    assert_eq!(limiter.acquire(1), Acquire::Queued);
    assert_eq!(limiter.in_use(), 0);
    assert_eq!(limiter.release(), Some(1));
    assert_eq!(limiter.in_use(), 0);
}

#[test]
fn never_more_permits_out_than_the_capacity() {
    let mut limiter = Limiter::new(3);
    let mut holders = 0usize;
    for round in 0..200u64 {
        if round % 7 == 3 || round % 5 == 4 {
            if holders > 0 {
                if limiter.release().is_none() {
                    holders -= 1;
                }
            }
        } else if limiter.acquire(round) == Acquire::Granted {
            holders += 1;
        }
        assert!(limiter.in_use() <= limiter.capacity());
        assert_eq!(limiter.in_use(), holders);
        if limiter.waiting() > 0 {
            assert_eq!(limiter.in_use(), 3);
        }
    }
}
