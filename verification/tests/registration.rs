use stream_router::{
    init_stderr_with_level, init_with_level, InitError, Registry, Severity, Stream,
};

#[test]
fn first_registration_succeeds() {
    let mut reg = Registry::new();
    assert!(!reg.is_enabled(Severity::Error));
    assert!(init_with_level(&mut reg, Severity::Info).is_ok());
    assert!(reg.is_enabled(Severity::Info));
    assert!(!reg.is_enabled(Severity::Debug));
}

#[test]
fn second_registration_reports_error_and_first_stays_active() {
    let mut reg = Registry::new();
    assert!(init_with_level(&mut reg, Severity::Info).is_ok());
    assert_eq!(
        init_stderr_with_level(&mut reg, Severity::Trace),
        Err(InitError::AlreadyRegistered)
    );
    // The first configuration remains active: warn still goes to the
    // primary stream and the threshold is still Info.
    let routed = reg.emit(Severity::Warn, "w").unwrap();
    assert_eq!(routed.stream, Stream::Primary);
    assert_eq!(routed.line, "w\n");
    assert!(reg.emit(Severity::Debug, "dropped").is_none());
}

#[test]
fn second_registration_other_order() {
    let mut reg = Registry::new();
    assert!(init_stderr_with_level(&mut reg, Severity::Warn).is_ok());
    assert_eq!(
        init_with_level(&mut reg, Severity::Trace),
        Err(InitError::AlreadyRegistered)
    );
    let routed = reg.emit(Severity::Warn, "w").unwrap();
    assert_eq!(routed.stream, Stream::Error);
    assert_eq!(routed.line, "warn: w\n");
}

#[test]
fn empty_registry_drops_everything() {
    let reg = Registry::new();
    for s in [
        Severity::Error,
        Severity::Warn,
        Severity::Info,
        Severity::Debug,
        Severity::Trace,
    ] {
        assert!(reg.emit(s, "m").is_none());
        assert!(!reg.is_enabled(s));
    }
    reg.flush();
}

#[test]
fn stderr_variant_routes_info_to_error_unprefixed() {
    let mut reg = Registry::new();
    init_stderr_with_level(&mut reg, Severity::Debug).unwrap();
    let routed = reg.emit(Severity::Info, "note").unwrap();
    assert_eq!(routed.stream, Stream::Error);
    assert_eq!(routed.line, "note\n");
}

#[test]
fn registry_flush_is_advisory() {
    let mut reg = Registry::new();
    init_with_level(&mut reg, Severity::Trace).unwrap();
    let before = reg.emit(Severity::Trace, "t").unwrap();
    reg.flush();
    reg.flush();
    reg.flush();
    let after = reg.emit(Severity::Trace, "t").unwrap();
    assert_eq!(before, after);
}
