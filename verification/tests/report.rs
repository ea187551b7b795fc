use fl_caption::report::{OnInferenceError, SessionPhase, SessionReport};
use fl_caption::segment::WhisperStatus;

#[test]
fn normal_session_reports_loading_ready_batches_exit() {
    let mut r = SessionReport::new(OnInferenceError::ReportStatus);
    assert_eq!(r.phase(), SessionPhase::Starting);
    let m = r.loading();
    assert_eq!(m.len(), 1);
    assert_eq!(m[0].status, WhisperStatus::Loading);
    let m = r.ready();
    assert_eq!(m[0].status, WhisperStatus::Ready);
    assert_eq!(r.phase(), SessionPhase::Ready);
    assert_eq!(r.deliver(vec!["caption one", "caption two"]), vec!["caption one", "caption two"]);
    assert_eq!(r.deliver(Vec::<u8>::new()), Vec::<u8>::new());
    assert_eq!(r.phase(), SessionPhase::Ready);
    let m = r.exit();
    assert_eq!(m.len(), 1);
    assert_eq!(m[0].status, WhisperStatus::Exit);
    assert_eq!(r.phase(), SessionPhase::Exited);
}

#[test]
fn reporting_session_sends_error_and_goes_on() {
    let mut r = SessionReport::new(OnInferenceError::ReportStatus);
    r.loading();
    r.ready();
    let m = r.inference_failed().unwrap();
    assert_eq!(m.len(), 1);
    assert_eq!(m[0].status, WhisperStatus::Error);
    assert!(m[0].dr.text.is_empty());
    assert_eq!(r.phase(), SessionPhase::Ready);
    assert_eq!(r.deliver(vec![1, 2, 3]), vec![1, 2, 3]);
    assert_eq!(r.exit()[0].status, WhisperStatus::Exit);
}

#[test]
fn aborting_session_ends_without_message() {
    let mut r = SessionReport::new(OnInferenceError::Abort);
    r.loading();
    r.ready();
    assert!(r.inference_failed().is_none());
    assert_eq!(r.phase(), SessionPhase::Failed);
}

#[test]
fn failed_setup_ends_the_session() {
    let mut r = SessionReport::new(OnInferenceError::Abort);
    r.setup_failed();
    assert_eq!(r.phase(), SessionPhase::Failed);
    let mut r = SessionReport::new(OnInferenceError::ReportStatus);
    r.loading();
    r.setup_failed();
    assert_eq!(r.phase(), SessionPhase::Failed);
}
