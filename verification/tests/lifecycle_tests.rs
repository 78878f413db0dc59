use async_flow::generator::GeneratorBase;
use async_flow::logger::{LogLevel, Logger};
use async_flow::time_frame::TimeFrame;

#[test]
fn test_base_initial_state() {
    let b = GeneratorBase::new();
    assert!(b.is_active());
    assert!(b.is_running());
    assert!(!b.is_completed());
    assert!(b.name().is_none());
    assert_ne!(b.id(), 0);
}

#[test]
fn test_base_ids_are_distinct() {
    let a = GeneratorBase::new();
    let b = GeneratorBase::new();
    assert_ne!(a.id(), b.id());
}

#[test]
fn test_base_with_name() {
    let b = GeneratorBase::with_name(String::from("worker"));
    assert_eq!(b.name().as_deref(), Some("worker"));
}

#[test]
fn test_base_set_name() {
    let mut b = GeneratorBase::new();
    b.set_name(String::from("renamed"));
    assert_eq!(b.name().as_deref(), Some("renamed"));
}

#[test]
fn test_activate_deactivate() {
    let b = GeneratorBase::new();
    let mut b = b;
    b.deactivate();
    assert!(!b.is_active());
    assert!(b.is_running());
    b.activate();
    assert!(b.is_active());
}

#[test]
fn test_complete_is_idempotent() {
    let mut b = GeneratorBase::new();
    b.complete();
    assert!(b.is_completed());
    assert!(!b.is_running());
    let id = b.id();
    let active = b.is_active();
    b.complete();
    b.complete();
    assert!(b.is_completed());
    assert!(!b.is_running());
    assert_eq!(b.id(), id);
    assert_eq!(b.is_active(), active);
}

#[test]
fn test_logger_records_levels() {
    let mut log = Logger::new(String::from("core"));
    assert_eq!(log.verbosity, 3);
    assert_eq!(log.prefix, "core");
    log.error(String::from("e"));
    log.warn(String::from("w"));
    log.info(String::from("i"));
    log.debug(String::from("d"));
    log.trace(String::from("t"));
    assert_eq!(log.records.len(), 5);
    assert_eq!(log.records[0].level, LogLevel::Error);
    assert_eq!(log.records[1].level, LogLevel::Warn);
    assert_eq!(log.records[2].level, LogLevel::Info);
    assert_eq!(log.records[3].level, LogLevel::Debug);
    assert_eq!(log.records[4].level, LogLevel::Trace);
    assert_eq!(log.records[0].message, "e");
    assert_eq!(log.records[4].message, "t");
}

#[test]
fn test_logger_verbose_respects_verbosity() {
    let mut log = Logger::new(String::from("v"));
    log.verbose(0, String::from("a"));
    log.verbose(3, String::from("b"));
    log.verbose(4, String::from("dropped"));
    log.verbose(9, String::from("dropped too"));
    assert_eq!(log.records.len(), 2);
    assert_eq!(log.records[0].level, LogLevel::Error);
    assert_eq!(log.records[1].level, LogLevel::Debug);
    log.verbosity = 5;
    log.verbose(4, String::from("kept"));
    assert_eq!(log.records.len(), 3);
    assert_eq!(log.records[2].level, LogLevel::Trace);
}

#[test]
fn test_time_frame_new() {
    let f = TimeFrame::new();
    assert_eq!(f.now, 0);
    assert_eq!(f.last, 0);
    assert_eq!(f.delta, 0);
}

#[test]
fn test_time_frame_update_with_delta() {
    let mut f = TimeFrame::new();
    f.update_with_delta(10);
    assert_eq!(f.now, 10);
    assert_eq!(f.last, 0);
    assert_eq!(f.delta, 10);
    f.update_with_delta(25);
    assert_eq!(f.now, 35);
    assert_eq!(f.last, 10);
    assert_eq!(f.delta, 25);
}

#[test]
fn test_time_frame_update() {
    let mut f = TimeFrame::new();
    f.update(100);
    assert_eq!(f.now, 100);
    assert_eq!(f.last, 0);
    assert_eq!(f.delta, 100);
    f.update(130);
    assert_eq!(f.now, 130);
    assert_eq!(f.last, 100);
    assert_eq!(f.delta, 30);
}
