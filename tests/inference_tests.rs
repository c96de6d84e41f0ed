use cerebro::inference::{
    check_scaler_lengths, focus_label_name, prediction_from_class_ids, InferenceError, ModelSlot,
    TemporalState,
};
use cerebro::mock::{mock_eeg_payload, mock_payload_at};

#[test]
fn label_names() {
    assert_eq!(focus_label_name(1), "Focused");
    assert_eq!(focus_label_name(0), "Unfocused");
    assert_eq!(focus_label_name(2), "Unfocused");
    assert_eq!(focus_label_name(-1), "Unfocused");
}

#[test]
fn prediction_takes_first_class() {
    let p = prediction_from_class_ids(&[1, 0, 0]).unwrap();
    assert_eq!(p.label, 1);
    assert_eq!(p.label_name, "Focused");
    let q = prediction_from_class_ids(&[0]).unwrap();
    assert_eq!(q.label, 0);
    assert_eq!(q.label_name, "Unfocused");
}

#[test]
fn empty_output_is_an_error() {
    let e = prediction_from_class_ids(&[]).unwrap_err();
    assert!(matches!(e, InferenceError::EmptyOutput));
    assert_eq!(e.message(), "ONNX returned an empty output tensor");
}

#[test]
fn scaler_lengths_must_match_features() {
    assert!(check_scaler_lengths(11, 11).is_ok());
    assert!(matches!(check_scaler_lengths(10, 11), Err(InferenceError::FeatureCountMismatch)));
    assert!(matches!(check_scaler_lengths(11, 12), Err(InferenceError::FeatureCountMismatch)));
    assert!(matches!(check_scaler_lengths(0, 0), Err(InferenceError::FeatureCountMismatch)));
}

#[test]
fn infer_before_load_reports_not_loaded() {
    let mut slot: ModelSlot<u32> = ModelSlot::new();
    assert!(!slot.is_loaded());
    let e = slot.loaded_mut().unwrap_err();
    assert!(matches!(e, InferenceError::ModelNotLoaded));
    assert!(e.message().starts_with("ML model not loaded"));
}

#[test]
fn failed_load_keeps_previous_model() {
    let mut slot: ModelSlot<u32> = ModelSlot::new();
    assert_eq!(slot.install(Ok(7)), Ok(()));
    assert_eq!(slot.install(Err("bad scaler".to_string())), Err("bad scaler".to_string()));
    assert_eq!(*slot.loaded_mut().unwrap(), 7);
    assert_eq!(slot.install(Ok(9)), Ok(()));
    assert_eq!(slot.model, Some(9));
}

#[test]
fn runtime_error_keeps_message() {
    let e = InferenceError::Runtime("boom".to_string());
    assert_eq!(e.message(), "boom");
    assert!(InferenceError::FeatureCountMismatch.message().contains("11"));
}

#[test]
fn temporal_state_couples_calls() {
    let mut fed = TemporalState::new(0i32);
    assert_eq!(fed.exchange(30), 0);
    let after_a = fed.exchange(70);
    let mut fresh = TemporalState::new(0i32);
    let alone = fresh.exchange(70);
    assert_eq!(after_a, 30);
    assert_eq!(alone, 0);
    assert_ne!(after_a, alone);
}

#[test]
fn temporal_state_is_deterministic() {
    let inputs = [5i32, -3, 8, 8, 0];
    let run = || {
        let mut s = TemporalState::new(0i32);
        inputs.iter().map(|x| s.exchange(*x)).collect::<Vec<_>>()
    };
    assert_eq!(run(), run());
    assert_eq!(run(), vec![0, 5, -3, 8, 8]);
}

#[test]
fn mock_profiles_alternate() {
    let focused = mock_payload_at(0);
    assert_eq!(focused.low_beta, 300_000);
    assert_eq!(focused.attention, 75);
    assert_eq!(mock_payload_at(4), focused);
    let unfocused = mock_payload_at(5);
    assert_eq!(unfocused.low_alpha, 350_000);
    assert_eq!(unfocused.meditation, 65);
    assert_eq!(mock_payload_at(9), unfocused);
    assert_eq!(mock_payload_at(10), focused);
    let now = mock_eeg_payload();
    assert!(now == focused || now == unfocused);
}
