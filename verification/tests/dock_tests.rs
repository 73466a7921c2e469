use tao::dock::{
    indicator_hidden, normalize_progress, progress_updates, ProgressBarState, ProgressState,
};

#[test]
fn progress_is_clamped_to_one_hundred() {
    assert_eq!(normalize_progress(0), 0);
    assert_eq!(normalize_progress(42), 42);
    assert_eq!(normalize_progress(100), 100);
    assert_eq!(normalize_progress(150), 100);
    assert_eq!(normalize_progress(u64::MAX), 100);
}

#[test]
fn only_the_hidden_state_hides() {
    assert!(indicator_hidden(&ProgressState::Hidden));
    assert!(!indicator_hidden(&ProgressState::Normal));
    assert!(!indicator_hidden(&ProgressState::Indeterminate));
    assert!(!indicator_hidden(&ProgressState::Paused));
    assert!(!indicator_hidden(&ProgressState::Errored));
}

#[test]
fn updates_touch_only_the_requested_aspects() {
    let r = progress_updates(&ProgressBarState { progress: Some(130), state: None });
    assert_eq!(r, (Some(100), None));

    let r = progress_updates(&ProgressBarState {
        progress: None,
        state: Some(ProgressState::Hidden),
    });
    assert_eq!(r, (None, Some(true)));

    let r = progress_updates(&ProgressBarState {
        progress: Some(10),
        state: Some(ProgressState::Normal),
    });
    assert_eq!(r, (Some(10), Some(false)));

    let r = progress_updates(&ProgressBarState { progress: None, state: None });
    assert_eq!(r, (None, None));
}
