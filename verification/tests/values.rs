use pwpush::args::{DeletableByViewerGroup, InstanceProtocol, LogVerbosity, RetrievalStepGroup};
use pwpush::errors::PPCError;

#[test]
fn protocol_names() {
    assert_eq!(InstanceProtocol::Http.to_string(), "http");
    assert_eq!(InstanceProtocol::Https.to_string(), "https");
}

#[test]
fn verbosity_levels() {
    assert_eq!(LogVerbosity::Error.level(), 0);
    assert_eq!(LogVerbosity::Warn.level(), 1);
    assert_eq!(LogVerbosity::Info.level(), 2);
    assert_eq!(LogVerbosity::Debug.level(), 3);
    assert_eq!(LogVerbosity::Trace.level(), 4);
}

#[test]
fn error_from_string_keeps_the_message() {
    let error = PPCError::from(String::from("connection refused"));
    assert_eq!(error.message(), "connection refused");
    assert_eq!(error.to_string(), "Error: connection refused");
}

#[test]
fn error_from_str_keeps_the_message() {
    let error = PPCError::from("empty host");
    assert_eq!(error.message(), "empty host");
    assert_eq!(error.to_string(), "Error: empty host");
}

#[test]
fn error_with_empty_message() {
    let error = PPCError::from("");
    assert_eq!(error.message(), "");
    assert_eq!(error.to_string(), "Error: ");
}

#[test]
fn deletable_switches_resolve() {
    let asked = DeletableByViewerGroup { is_deletable_by_viewer: true, not_deletable_by_viewer: true };
    assert_eq!(asked.resolve(), Some(true));
    let refused =
        DeletableByViewerGroup { is_deletable_by_viewer: false, not_deletable_by_viewer: false };
    assert_eq!(refused.resolve(), Some(false));
    let silent =
        DeletableByViewerGroup { is_deletable_by_viewer: false, not_deletable_by_viewer: true };
    assert_eq!(silent.resolve(), None);
    assert!(asked.is_wf() && refused.is_wf() && silent.is_wf());
    let both =
        DeletableByViewerGroup { is_deletable_by_viewer: true, not_deletable_by_viewer: false };
    assert!(!both.is_wf());
}

#[test]
fn retrieval_switches_resolve() {
    let asked = RetrievalStepGroup { with_retrieval_step: true, without_retrieval_step: true };
    assert_eq!(asked.resolve(), Some(true));
    let refused = RetrievalStepGroup { with_retrieval_step: false, without_retrieval_step: false };
    assert_eq!(refused.resolve(), Some(false));
    let silent = RetrievalStepGroup { with_retrieval_step: false, without_retrieval_step: true };
    assert_eq!(silent.resolve(), None);
    assert!(asked.is_wf() && refused.is_wf() && silent.is_wf());
    let both = RetrievalStepGroup { with_retrieval_step: true, without_retrieval_step: false };
    assert!(!both.is_wf());
}
