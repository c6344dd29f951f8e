use glintlock::{allocate, port_from_pick, port_text, StartupError};

#[test]
fn allocated_port_is_valid() {
    match allocate() {
        Ok(p) => assert!(p >= 1),
        Err(e) => assert_eq!(e, StartupError::NoPortAvailable),
    }
}

#[test]
fn pick_of_a_port_is_kept() {
    assert_eq!(port_from_pick(Some(15000)), Ok(15000));
    assert_eq!(port_from_pick(Some(1)), Ok(1));
    assert_eq!(port_from_pick(Some(65535)), Ok(65535));
}

#[test]
fn pick_of_nothing_is_no_port_available() {
    assert_eq!(port_from_pick(None), Err(StartupError::NoPortAvailable));
}

#[test]
fn pick_of_port_zero_is_no_port_available() {
    assert_eq!(port_from_pick(Some(0)), Err(StartupError::NoPortAvailable));
}

#[test]
fn port_text_is_decimal() {
    assert_eq!(port_text(0), "0");
    assert_eq!(port_text(7), "7");
    assert_eq!(port_text(10), "10");
    assert_eq!(port_text(8080), "8080");
    assert_eq!(port_text(20001), "20001");
    assert_eq!(port_text(65535), "65535");
}

#[test]
fn error_messages() {
    assert_eq!(StartupError::NoPortAvailable.message(), "No free port available");
    let e = StartupError::SpawnFailed { reason: "No such file or directory (os error 2)".to_string() };
    assert_eq!(
        e.message(),
        "Failed to spawn opencode serve: No such file or directory (os error 2)"
    );
}
