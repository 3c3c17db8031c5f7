use anyhow::error::Message;
use anyhow::error::UnifiedError;
use anyhow::kind::construct;
use anyhow::kind::Input;
use anyhow::site::Backtrace;
use anyhow::site::CallSite;
use anyhow::site::Host;
use anyhow::site::Location;

fn message(text: &str) -> Message {
    Message {
        display: text.to_string(),
        debug: format!("{:?}", text),
    }
}

fn capture_at(host: &Host, line: u32) -> CallSite {
    CallSite::capture(host, "capture.rs".to_string(), line, 1, vec![0xbeef])
}

#[test]
fn capture_with_both_facilities() {
    let host = Host {
        backtrace_enabled: true,
        location_enabled: true,
    };
    let site = CallSite::capture(&host, "a.rs".to_string(), 3, 9, vec![1, 2]);
    assert_eq!(site.backtrace.unwrap().frames, vec![1, 2]);
    let loc = site.location.unwrap();
    assert_eq!(loc.file, "a.rs");
    assert_eq!(loc.line, 3);
    assert_eq!(loc.column, 9);
}

#[test]
fn capture_with_no_facility() {
    let host = Host {
        backtrace_enabled: false,
        location_enabled: false,
    };
    let site = CallSite::capture(&host, "a.rs".to_string(), 3, 9, vec![]);
    assert!(site.backtrace.is_none());
    assert!(site.location.is_none());
}

#[test]
fn capture_with_location_only() {
    let host = Host {
        backtrace_enabled: false,
        location_enabled: true,
    };
    let site = CallSite::capture(&host, "a.rs".to_string(), 3, 9, vec![]);
    assert!(site.backtrace.is_none());
    assert_eq!(site.location.unwrap().line, 3);
}

#[test]
fn distinct_lines_give_distinct_locations() {
    let host = Host {
        backtrace_enabled: true,
        location_enabled: true,
    };
    let first = construct(Input::Message(message("m")), capture_at(&host, 10));
    let second = construct(Input::Message(message("m")), capture_at(&host, 20));
    let l1 = first.location().unwrap();
    let l2 = second.location().unwrap();
    assert_ne!(l1, l2);
    assert_ne!(l1.line, l2.line);
}

#[test]
fn disabled_tracking_leaves_both_absent() {
    let host = Host {
        backtrace_enabled: true,
        location_enabled: false,
    };
    let first = construct(Input::Message(message("m")), capture_at(&host, 10));
    let second = construct(Input::Message(message("m")), capture_at(&host, 20));
    assert!(first.location().is_none());
    assert!(second.location().is_none());
}

#[test]
fn frame_count_reports_length() {
    let bt = Backtrace {
        frames: vec![4, 5, 6],
    };
    assert_eq!(bt.frame_count(), 3);
}

#[test]
fn build_from_cause_records_no_location() {
    let e = UnifiedError::build_from_cause(anyhow::error::ErrorObject {
        display: "raw".to_string(),
        debug: "raw".to_string(),
        cause: None,
        backtrace: None,
    });
    assert!(e.location().is_none());
}

#[test]
fn conversion_keeps_chain_and_backtrace() {
    let inner = anyhow::error::ErrorObject {
        display: "inner".to_string(),
        debug: "inner".to_string(),
        cause: None,
        backtrace: None,
    };
    let outer = anyhow::error::ErrorObject {
        display: "outer".to_string(),
        debug: "outer".to_string(),
        cause: Some(Box::new(inner)),
        backtrace: Some(Backtrace { frames: vec![3] }),
    };
    let e = UnifiedError::from(outer);
    assert_eq!(e.display_text(), "outer");
    assert_eq!(e.cause().unwrap().display, "inner");
    assert_eq!(e.backtrace().unwrap().frames, vec![3]);
    assert!(e.location().is_none());
}

#[test]
fn set_location_stamps_only_location() {
    let mut e = UnifiedError::build(message("m"), None, None);
    e.set_location(Some(Location {
        file: "b.rs".to_string(),
        line: 8,
        column: 2,
    }));
    assert_eq!(e.location().unwrap().line, 8);
    assert_eq!(e.display_text(), "m");
    assert!(e.cause().is_none());
}

#[test]
fn build_stores_given_parts() {
    let e = UnifiedError::build(
        message("m"),
        Some(Backtrace { frames: vec![9] }),
        Some(Location {
            file: "c.rs".to_string(),
            line: 1,
            column: 1,
        }),
    );
    assert_eq!(e.backtrace().unwrap().frames, vec![9]);
    assert_eq!(e.location().unwrap().file, "c.rs");
}
