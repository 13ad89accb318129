use compute::logger::{log, log_structure, LogFilter, LogStep};

#[test]
fn step_labels() {
    assert_eq!(LogStep::Structure.label(), "[Structure]");
    assert_eq!(LogStep::Setup.label(), "[Setup]");
    assert_eq!(LogStep::Compute.label(), "[Compute]");
}

#[test]
fn silent_filter_logs_nothing() {
    let f = LogFilter::silent();
    assert_eq!(log(&f, LogStep::Structure, "a"), None);
    assert_eq!(log(&f, LogStep::Setup, "a"), None);
    assert_eq!(log(&f, LogStep::Compute, "a"), None);
    assert_eq!(log_structure(&f, String::from("a")), None);
}

#[test]
fn filter_selects_steps() {
    let f = LogFilter { structure: false, setup: true, compute: false };
    assert!(f.allows(LogStep::Setup));
    assert!(!f.allows(LogStep::Compute));
    assert_eq!(
        log(&f, LogStep::Setup, "Variable \"element2\" is unknown"),
        Some(String::from("[Setup] Variable \"element2\" is unknown"))
    );
    assert_eq!(log(&f, LogStep::Compute, "x"), None);
}

#[test]
fn structure_messages() {
    let f = LogFilter { structure: true, setup: false, compute: false };
    assert_eq!(
        log_structure(&f, String::from("Found variable: \"element2\"")),
        Some(String::from("[Structure] Found variable: \"element2\""))
    );
    assert_eq!(log(&f, LogStep::Structure, ""), Some(String::from("[Structure] ")));
}
