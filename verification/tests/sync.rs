use clap_file::lock;
use clap_file::recover;
use std::sync::Mutex;
use std::sync::PoisonError;

#[test]
fn lock_gives_access_to_the_value() {
    let mutex = Mutex::new(vec![1u8, 2, 3]);
    let guard = lock(&mutex);
    assert_eq!(*guard, vec![1u8, 2, 3]);
}

#[test]
fn lock_can_be_taken_again_after_release() {
    let mutex = Mutex::new(0u32);
    {
        let mut guard = lock(&mutex);
        *guard += 1;
    }
    {
        let mut guard = lock(&mutex);
        *guard += 10;
    }
    assert_eq!(*lock(&mutex), 11);
}

#[test]
fn lock_holds_the_mutex_until_the_guard_is_dropped() {
    let mutex = Mutex::new(7u8);
    let guard = lock(&mutex);
    assert!(mutex.try_lock().is_err());
    drop(guard);
    assert!(mutex.try_lock().is_ok());
}

#[test]
fn recover_passes_a_clean_guard_through() {
    let mutex = Mutex::new(String::from("intact"));
    let guard = recover(mutex.lock());
    assert_eq!(guard.as_str(), "intact");
}

#[test]
fn recover_takes_the_guard_out_of_a_poison_error() {
    let mutex = Mutex::new(vec![b'a', b'b']);
    let held = mutex.lock().unwrap();
    let mut guard = recover(Err(PoisonError::new(held)));
    assert_eq!(*guard, vec![b'a', b'b']);
    guard.push(b'c');
    drop(guard);
    assert_eq!(*lock(&mutex), vec![b'a', b'b', b'c']);
}

#[test]
fn recover_works_on_plain_values_too() {
    assert_eq!(recover(Ok(5u8)), 5);
    assert_eq!(recover(Err(PoisonError::new(6u8))), 6);
}
