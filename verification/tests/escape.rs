use julia::escape::{EscapeCounter, MAX_ITER};

fn count_of(flags: &[bool], cap: u32) -> u32 {
    let mut counter = EscapeCounter::new(cap);
    for flag in flags {
        counter.observe(*flag);
    }
    counter.count()
}

#[test]
fn cap_is_255() {
    assert_eq!(MAX_ITER, 255);
}

#[test]
fn fresh_counter_holds_zero() {
    let counter = EscapeCounter::new(MAX_ITER);
    assert_eq!(counter.count(), 0);
    assert_eq!(counter.cap(), 255);
}

#[test]
fn outside_start_counts_zero() {
    let mut counter = EscapeCounter::new(MAX_ITER);
    assert!(!counter.observe(false));
    assert_eq!(counter.count(), 0);
}

#[test]
fn counts_steps_before_first_outside() {
    let mut counter = EscapeCounter::new(MAX_ITER);
    assert!(counter.observe(true));
    assert!(counter.observe(true));
    assert!(counter.observe(true));
    assert!(!counter.observe(false));
    assert_eq!(counter.count(), 3);
}

#[test]
fn stops_at_the_cap() {
    let mut counter = EscapeCounter::new(2);
    assert!(counter.observe(true));
    assert!(counter.observe(true));
    assert!(!counter.observe(true));
    assert_eq!(counter.count(), 2);
}

#[test]
fn bounded_orbit_reaches_max_iter() {
    let mut counter = EscapeCounter::new(MAX_ITER);
    let mut steps: u32 = 0;
    while counter.observe(true) {
        steps += 1;
    }
    assert_eq!(steps, 255);
    assert_eq!(counter.count(), MAX_ITER);
}

#[test]
fn zero_cap_never_steps() {
    let mut counter = EscapeCounter::new(0);
    assert!(!counter.observe(true));
    assert_eq!(counter.count(), 0);
}

#[test]
fn stays_stopped_after_an_outside_point() {
    let mut counter = EscapeCounter::new(10);
    assert!(counter.observe(true));
    assert!(!counter.observe(false));
    assert!(!counter.observe(true));
    assert!(!counter.observe(true));
    assert_eq!(counter.count(), 1);
}

#[test]
fn stays_stopped_at_the_cap() {
    let mut counter = EscapeCounter::new(1);
    assert!(counter.observe(true));
    assert!(!counter.observe(true));
    assert!(!counter.observe(true));
    assert_eq!(counter.count(), 1);
}

#[test]
fn count_never_exceeds_cap() {
    for cap in 0..6u32 {
        for bits in 0..64u32 {
            let flags: Vec<bool> = (0..6).map(|k| bits & (1 << k) != 0).collect();
            assert!(count_of(&flags, cap) <= cap);
        }
    }
}

#[test]
fn count_is_leading_run_capped() {
    for cap in 0..6u32 {
        for bits in 0..64u32 {
            let flags: Vec<bool> = (0..6).map(|k| bits & (1 << k) != 0).collect();
            let run = flags.iter().take_while(|f| **f).count() as u32;
            assert_eq!(count_of(&flags, cap), run.min(cap));
        }
    }
}

#[test]
fn same_observations_same_count() {
    let flags = [true, true, true, true, false, true];
    assert_eq!(count_of(&flags, MAX_ITER), count_of(&flags, MAX_ITER));
    assert_eq!(count_of(&flags, MAX_ITER), 4);
    assert_eq!(count_of(&flags, 3), 3);
}
