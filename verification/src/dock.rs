//! Dock progress-indicator state.
//!
//! The dock tile can show a progress bar; drawing it is native and
//! outside this layer, but the values handed to the native indicator
//! are decided here: the requested progress is clamped to the 0..=100
//! range, and the indicator is hidden exactly when the requested state
//! says so.

use vstd::prelude::*;

verus! {

/// The requested state of the dock progress indicator.
#[derive(Clone, Copy, Debug, PartialEq, Eq, Structural)]
pub enum ProgressState {
    /// No indicator shown.
    Hidden,
    Normal,
    Indeterminate,
    Paused,
    Errored,
}

/// A progress update request: either field may be absent, leaving that
/// aspect of the indicator unchanged.
#[derive(Clone, Copy, Debug, PartialEq, Eq, Structural)]
pub struct ProgressBarState {
    pub progress: Option<u64>,
    pub state: Option<ProgressState>,
}

/// Clamps a requested progress value to the displayable 0..=100 range.
pub fn normalize_progress(p: u64) -> (r: u64)
    ensures
        r == if p > 100 {
            100u64
        } else {
            p
        },
{
    if p > 100 {
        100
    } else {
        p
    }
}

/// Whether a requested state hides the indicator.
pub fn indicator_hidden(s: &ProgressState) -> (r: bool)
    ensures
        r == (*s is Hidden),
{
    match s {
        ProgressState::Hidden => true,
        _ => false,
    }
}

/// The values to hand the native indicator for one update request: the
/// clamped value to set and show, if a progress was requested, and the
/// hidden flag to set, if a state was requested.
pub fn progress_updates(req: &ProgressBarState) -> (r: (Option<u64>, Option<bool>))
    ensures
        req.progress matches Some(p) ==> r.0 == Some(
            if p > 100 {
                100u64
            } else {
                p
            },
        ),
        req.progress is None ==> r.0 is None,
        req.state matches Some(s) ==> r.1 == Some(s is Hidden),
        req.state is None ==> r.1 is None,
{
    let value = match &req.progress {
        Some(p) => Some(normalize_progress(*p)),
        None => None,
    };
    let hidden = match &req.state {
        Some(s) => Some(indicator_hidden(s)),
        None => None,
    };
    (value, hidden)
}

} // verus!
