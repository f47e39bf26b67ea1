use recorder_core::session::elapsed_seconds;
use recorder_core::session::SessionManager;

// Handles are opaque to the manager; a plain integer stands in for a
// thread handle here.
type Mgr = SessionManager<u32>;

#[test]
fn add_slot_starts_idle() {
    let mut m: Mgr = SessionManager::new();
    assert_eq!(m.len(), 0);
    m.add_slot(0, "Mic A".to_string());
    assert_eq!(m.len(), 1);
    assert!(!m.is_recording(0));
    assert!(!m.stop_signal(0));
    let (device, recording, started) = m.slot_info(0);
    assert_eq!(device, 0);
    assert!(!recording);
    assert_eq!(started, None);
}

#[test]
fn start_then_stop_returns_the_stored_handle() {
    let mut m: Mgr = SessionManager::new();
    m.add_slot(3, "Mic".to_string());
    m.start_slot(0, 77, 1000);
    assert!(m.is_recording(0));
    assert!(!m.stop_signal(0));
    assert_eq!(m.slot_info(0).2, Some(1000));

    let handle = m.stop_slot(0);
    assert_eq!(handle, Some(77));
    assert!(!m.is_recording(0));
    assert!(m.stop_signal(0));
    assert_eq!(m.slot_info(0).2, None);
}

// Stopping an already-stopped slot changes nothing and hands back no
// handle, so nothing can be joined twice.
#[test]
fn stop_is_idempotent() {
    let mut m: Mgr = SessionManager::new();
    m.add_slot(0, "Mic".to_string());
    m.start_slot(0, 5, 42);
    let first = m.stop_slot(0);
    assert_eq!(first, Some(5));
    let second = m.stop_slot(0);
    assert_eq!(second, None);
    assert!(!m.is_recording(0));
    assert!(m.stop_signal(0));
}

#[test]
fn stop_out_of_range_changes_nothing() {
    let mut m: Mgr = SessionManager::new();
    m.add_slot(0, "Mic".to_string());
    assert_eq!(m.stop_slot(9), None);
    assert_eq!(m.len(), 1);
    assert!(!m.is_recording(0));
}

// After an arbitrary interleaving of adds and removes, every per-slot
// accessor still works for every index below the common length: the
// slot, stop-signal and handle collections stayed aligned.
#[test]
fn add_remove_sequences_keep_collections_aligned() {
    let mut m: Mgr = SessionManager::new();
    m.add_slot(0, "a".to_string());
    m.add_slot(1, "b".to_string());
    m.add_slot(2, "c".to_string());
    m.remove_slot(1);
    m.add_slot(3, "d".to_string());
    m.remove_slot(0);
    m.remove_slot(5);
    m.add_slot(4, "e".to_string());
    assert_eq!(m.len(), 3);
    for i in 0..m.len() {
        assert!(!m.is_recording(i));
        assert!(!m.stop_signal(i));
        let _ = m.slot_info(i);
    }
    // The survivors, in order: "c", "d", "e".
    assert_eq!(m.slot_info(0).0, 2);
    assert_eq!(m.slot_info(1).0, 3);
    assert_eq!(m.slot_info(2).0, 4);
}

// Removing a recording slot hands its handle back for the join.
#[test]
fn remove_recording_slot_yields_handle() {
    let mut m: Mgr = SessionManager::new();
    m.add_slot(0, "a".to_string());
    m.add_slot(1, "b".to_string());
    m.start_slot(1, 11, 5);
    let handle = m.remove_slot(1);
    assert_eq!(handle, Some(11));
    assert_eq!(m.len(), 1);
}

#[test]
fn remove_idle_slot_yields_no_handle() {
    let mut m: Mgr = SessionManager::new();
    m.add_slot(0, "a".to_string());
    assert_eq!(m.remove_slot(0), None);
    assert_eq!(m.len(), 0);
}

// A start after a stop resets the stop signal so the new capture thread
// runs.
#[test]
fn restart_resets_stop_signal() {
    let mut m: Mgr = SessionManager::new();
    m.add_slot(0, "a".to_string());
    m.start_slot(0, 1, 10);
    m.stop_slot(0);
    assert!(m.stop_signal(0));
    m.start_slot(0, 2, 20);
    assert!(!m.stop_signal(0));
    assert!(m.is_recording(0));
    assert_eq!(m.stop_slot(0), Some(2));
}

#[test]
fn elapsed_time_is_derived_from_the_start_timestamp() {
    assert_eq!(elapsed_seconds(None, 100), 0);
    assert_eq!(elapsed_seconds(Some(40), 100), 60);
    assert_eq!(elapsed_seconds(Some(100), 100), 0);
    assert_eq!(elapsed_seconds(Some(200), 100), 0);
}

#[test]
fn change_device_while_idle() {
    let mut m: Mgr = SessionManager::new();
    m.add_slot(0, "a".to_string());
    m.change_device(0, 7, "other".to_string());
    assert_eq!(m.slot_info(0).0, 7);
    assert!(!m.is_recording(0));
}
