use trylock::status::{found, FREE, HELD};
use trylock::{LockStatus, Mutex, MutexGuard};

#[derive(Clone, Copy, Debug, PartialEq)]
struct Pair {
    a: u64,
    b: u64,
}

#[test]
fn value_written_through_one_guard_is_read_through_the_next() {
    let lock = Mutex::new(0);
    let mut a = lock.try_lock().unwrap();
    *a = 1;
    drop(a);
    let b = lock.try_lock().unwrap();
    assert_eq!(*b, 1);
}

#[test]
fn second_attempt_while_held_is_refused() {
    let lock = Mutex::new(5u8);
    let a = lock.try_lock();
    assert!(a.is_some());
    assert!(lock.try_lock().is_none());
    drop(a);
    assert!(lock.try_lock().is_some());
}

#[test]
fn fresh_lock_is_acquired_exactly_once() {
    let lock = Mutex::new(String::from("v"));
    let first = lock.try_lock();
    assert!(first.is_some());
    assert!(lock.try_lock().is_none());
    assert!(lock.try_lock().is_none());
    assert_eq!(first.unwrap().as_str(), "v");
}

#[test]
fn at_most_one_attempt_wins_until_release() {
    let lock = Mutex::new(0u64);
    let mut wins: u64 = 0;
    for _round in 0..100 {
        let g = lock.try_lock();
        assert!(g.is_some());
        let mut g = g.unwrap();
        wins += 1;
        for _ in 0..10 {
            assert!(lock.try_lock().is_none());
        }
        *g += 1;
    }
    let g = lock.try_lock().unwrap();
    assert_eq!(*g, wins);
    assert_eq!(*g, 100);
}

#[test]
fn whole_multi_field_write_is_seen_by_next_holder() {
    let lock = Mutex::new(Pair { a: 0, b: 0 });
    for i in 1..=50u64 {
        {
            let mut g = lock.try_lock().unwrap();
            g.a = i;
            g.b = i * 2;
        }
        let g = lock.try_lock().unwrap();
        assert_eq!(*g, Pair { a: i, b: i * 2 });
    }
}

fn update_or_fail(lock: &Mutex<u32>, fail: bool) -> Result<u32, String> {
    let mut g = lock.try_lock().ok_or(String::from("busy"))?;
    *g = 7;
    if fail {
        return Err(String::from("failed while holding"));
    }
    *g = 8;
    Ok(*g)
}

#[test]
fn early_exit_releases_the_lock() {
    let lock = Mutex::new(0u32);
    assert_eq!(update_or_fail(&lock, true), Err(String::from("failed while holding")));
    let g = lock.try_lock();
    assert!(g.is_some());
    assert_eq!(*g.unwrap(), 7);
    assert_eq!(update_or_fail(&lock, false), Ok(8));
    assert!(lock.try_lock().is_some());
}

#[test]
fn attempt_made_while_held_reports_busy() {
    let lock = Mutex::new(1u32);
    let held: MutexGuard<'_, u32> = lock.try_lock().unwrap();
    assert_eq!(update_or_fail(&lock, false), Err(String::from("busy")));
    assert_eq!(*held, 1);
}

#[test]
fn guard_drop_frees_lock_each_time() {
    let lock = Mutex::new(vec![1u8, 2, 3]);
    for _ in 0..5 {
        let mut g = lock.try_lock().unwrap();
        g.push(0);
    }
    assert_eq!(lock.try_lock().unwrap().len(), 8);
}

#[test]
fn status_steps() {
    assert_eq!(LockStatus::Free.try_acquire(), (LockStatus::Held, true));
    assert_eq!(LockStatus::Held.try_acquire(), (LockStatus::Held, false));
    assert_eq!(FREE, 0);
    assert_eq!(HELD, 1);
}

#[test]
fn exchange_outcome() {
    assert_eq!(found(Ok(FREE)), LockStatus::Free);
    assert_eq!(found(Err(HELD)), LockStatus::Held);
    assert_eq!(found(Ok(FREE)).try_acquire(), (LockStatus::Held, true));
    assert_eq!(found(Err(HELD)).try_acquire(), (LockStatus::Held, false));
}
