//! What the focus window shows.
use vstd::prelude::*;
use crate::timer::SessionState;

verus! {

/// Where the focus window takes its color from.
#[derive(Clone, Copy, PartialEq, Eq, Structural, Debug)]
pub enum ColorSource {
    /// The theme's idle color.
    Idle,
    /// The theme's gradient at the point chosen in the settings.
    SettingsPreview,
    /// The theme's gradient at the running session's progress.
    SessionProgress,
}

/// The color source of the focus window: while the settings are open, the
/// idle color or the previewed point of the gradient as the settings say;
/// otherwise the idle color while the timer is idle and the gradient at
/// the session's progress while it runs.
pub fn color_source(show_settings: bool, settings_idle: bool, state: &SessionState) -> (src: ColorSource)
    ensures
        show_settings && settings_idle ==> src == ColorSource::Idle,
        show_settings && !settings_idle ==> src == ColorSource::SettingsPreview,
        !show_settings && state is Idle ==> src == ColorSource::Idle,
        !show_settings && state is Running ==> src == ColorSource::SessionProgress,
{
    if show_settings {
        if settings_idle {
            ColorSource::Idle
        } else {
            ColorSource::SettingsPreview
        }
    } else {
        match state {
            SessionState::Idle { .. } => ColorSource::Idle,
            SessionState::Running { .. } => ColorSource::SessionProgress,
        }
    }
}

} // verus!
