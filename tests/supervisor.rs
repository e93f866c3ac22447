use quickdocker::{StartError, Supervisor};

#[test]
fn new_supervisor_is_empty() {
    let s = Supervisor::<u32>::new();
    assert!(!s.is_running());
    assert_eq!(s.current(), None);
}

#[test]
fn stop_without_start_is_noop_every_time() {
    let mut s = Supervisor::<u32>::new();
    for _ in 0..5 {
        assert_eq!(s.stop(), None);
        assert!(!s.is_running());
    }
}

#[test]
fn start_then_stop_empties_slot() {
    let mut s = Supervisor::<u32>::new();
    assert_eq!(s.start::<String>(Ok(4242)), Ok(()));
    assert!(s.is_running());
    assert_eq!(s.current(), Some(&4242));
    assert_eq!(s.stop(), Some(4242));
    assert!(!s.is_running());
    assert_eq!(s.current(), None);
}

#[test]
fn repeated_stop_after_start_kills_once() {
    let mut s = Supervisor::<u32>::new();
    s.start::<String>(Ok(7)).unwrap();
    let killed: Vec<u32> = (0..4).filter_map(|_| s.stop()).collect();
    assert_eq!(killed, vec![7]);
    assert!(!s.is_running());
}

#[test]
fn second_start_is_rejected_and_hands_back_new_handle() {
    let mut s = Supervisor::<u32>::new();
    assert_eq!(s.start::<String>(Ok(1)), Ok(()));
    assert_eq!(s.start::<String>(Ok(2)), Err(StartError::AlreadyRunning(2)));
    assert_eq!(s.current(), Some(&1));
    assert_eq!(s.stop(), Some(1));
    assert_eq!(s.stop(), None);
}

#[test]
fn failed_spawn_leaves_slot_empty() {
    let mut s = Supervisor::<u32>::new();
    let r = s.start(Err("nonexistent-executable: not found".to_string()));
    assert_eq!(r, Err(StartError::Spawn("nonexistent-executable: not found".to_string())));
    assert!(!s.is_running());
    assert_eq!(s.stop(), None);
}

#[test]
fn failed_spawn_keeps_running_child() {
    let mut s = Supervisor::<u32>::new();
    s.start::<String>(Ok(9)).unwrap();
    assert_eq!(s.start::<String>(Err("denied".to_string())), Err(StartError::Spawn("denied".to_string())));
    assert_eq!(s.current(), Some(&9));
}

#[test]
fn start_then_stop_through_shared_lock() {
    let shared = std::sync::Arc::new(std::sync::Mutex::new(Supervisor::<u32>::new()));
    shared.lock().unwrap().start::<String>(Ok(31)).unwrap();
    let other = std::sync::Arc::clone(&shared);
    let first = other.lock().unwrap().stop();
    let second = shared.lock().unwrap().stop();
    assert_eq!(first, Some(31));
    assert_eq!(second, None);
    assert!(!shared.lock().unwrap().is_running());
}
