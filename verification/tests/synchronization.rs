use kernel_platform::synchronization::interface::Mutex;
use kernel_platform::synchronization::NullLock;

#[test]
fn lock_hands_the_value_to_the_closure() {
    let mut lock = NullLock::new(41u64);
    let seen = lock.lock(|value| {
        *value += 1;
        *value
    });
    assert_eq!(seen, 42);
    assert_eq!(lock.lock(|value| *value), 42);
}

#[test]
fn lock_returns_what_the_closure_returns() {
    let mut lock = NullLock::new(vec![1, 2, 3]);
    let total: i32 = lock.lock(|values| values.iter().sum());
    assert_eq!(total, 6);
    let length = lock.lock(|values| {
        values.push(4);
        values.len()
    });
    assert_eq!(length, 4);
    assert_eq!(lock.lock(|values| values.clone()), vec![1, 2, 3, 4]);
}

#[test]
fn lock_is_taken_one_closure_after_the_other() {
    let mut lock = NullLock::new(String::new());
    for word in ["one", "two", "three"] {
        lock.lock(|text| text.push_str(word));
    }
    assert_eq!(lock.lock(|text| text.clone()), "onetwothree");
}

fn bump(lock: &mut impl Mutex<Data = u32>) -> u32 {
    lock.lock(|value| {
        *value += 1;
        *value
    })
}

#[test]
fn null_lock_is_a_mutex() {
    let mut lock = NullLock::new(1u32);
    assert_eq!(bump(&mut lock), 2);
    assert_eq!(bump(&mut lock), 3);
}
