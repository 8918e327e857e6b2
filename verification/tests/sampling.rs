use hydrogen_orbitals::sampling::{split_work, thread_share, Draws};

#[test]
fn shares_of_an_even_split() {
    assert_eq!(split_work(60_000, 4), vec![15_000; 4]);
}

#[test]
fn shares_of_an_uneven_split() {
    let v = split_work(60_000, 7);
    assert_eq!(v, vec![8572, 8572, 8572, 8571, 8571, 8571, 8571]);
    assert_eq!(v.iter().sum::<usize>(), 60_000);
}

#[test]
fn more_threads_than_points() {
    let v = split_work(3, 5);
    assert_eq!(v, vec![1, 1, 1, 0, 0]);
}

#[test]
fn single_share() {
    assert_eq!(thread_share(10, 3, 0), 4);
    assert_eq!(thread_share(10, 3, 2), 3);
    assert_eq!(thread_share(usize::MAX, 1, 0), usize::MAX);
    assert_eq!(split_work(0, 2), vec![0, 0]);
}

#[test]
fn draws_stop_at_the_share() {
    let mut d = Draws::new(3);
    let mut steps = 0;
    while d.wants_more() {
        d.record(true);
        steps += 1;
    }
    assert_eq!(steps, 3);
    assert_eq!(d, Draws { target: 3, kept: 3, attempts: 3 });
}

#[test]
fn draws_stop_at_the_attempt_budget() {
    let mut d = Draws::new(2);
    while d.wants_more() {
        d.record(false);
    }
    assert_eq!(d, Draws { target: 2, kept: 0, attempts: 600 });
}

#[test]
fn draws_mixing_rejections() {
    let mut d = Draws::new(2);
    d.record(false);
    d.record(true);
    d.record(false);
    assert!(d.wants_more());
    d.record(true);
    assert!(!d.wants_more());
    assert_eq!(d, Draws { target: 2, kept: 2, attempts: 4 });
    assert!(!Draws::new(0).wants_more());
}
