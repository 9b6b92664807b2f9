use solistener::block_listener::{default_max_processor_count, max_count_from_cpus};
use solistener::counter::{Counter, Gate};

#[test]
fn concurrency_bound_doubles_the_cpu_count() {
    assert_eq!(max_count_from_cpus(1), 2);
    assert_eq!(max_count_from_cpus(4), 8);
    assert_eq!(max_count_from_cpus(24), 48);
    // At the machine limit the doubling saturates.
    assert_eq!(max_count_from_cpus(usize::MAX), usize::MAX);
}

#[test]
fn counter_moves_by_one() {
    let mut c = Counter::new();
    assert_eq!(c.count, 0);
    c.increase();
    c.increase();
    assert_eq!(c.count, 2);
    c.decrease();
    assert_eq!(c.count, 1);
    let d = c.clone();
    assert_eq!(d.count, 1);
    assert!(c.is_at_or_below(1));
    assert!(!c.is_at_or_below(0));
}

#[test]
fn gate_never_exceeds_bound() {
    let mut g = Gate::new(2);
    assert!(g.try_acquire());
    assert!(g.try_acquire());
    // The pool is exhausted: a third ticket is refused.
    assert!(!g.try_acquire());
    assert_eq!(g.tickets.count, 2);
}

#[test]
fn failed_worker_still_returns_its_ticket() {
    let mut g = Gate::new(1);
    assert!(g.try_acquire());
    assert!(!g.try_acquire());
    // The worker failed; its ticket comes back all the same.
    g.finish(false);
    assert_eq!(g.tickets.count, 0);
    assert!(g.try_acquire());
    g.finish(true);
    assert_eq!(g.tickets.count, 0);
}

#[test]
fn default_concurrency_is_twice_parallelism() {
    let n = default_max_processor_count();
    assert!(n >= 2);
    assert_eq!(n % 2, 0);
}
