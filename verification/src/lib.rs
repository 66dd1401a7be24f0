//! Unfocol is a minimalist focus timer: a colored window that shifts through
//! a theme's gradient as a focus session progresses. This crate holds its
//! logic: the countdown [`Timer`], the [`Color`] model, the user-facing
//! [`Message`]s and the debounce of theme reloads. The laws of each part are
//! proof functions in its module.
pub mod color;
pub mod config;
pub mod display;
pub mod message;
pub mod time;
pub mod timer;
pub mod watch;

pub use color::{Color, ColorParseError, InterpolationMethod};
pub use config::{
    decimal_text, join_strings, LoadSettingsError, LoadThemesError, OmarchyThemeError, ParseStopError, ParseThemeError,
    SettingsCorrection, SettingsLoadingOutcome, DEFAULT_FOCUS_TIME,
};
pub use display::{color_source, ColorSource};
pub use message::{Message, Severity};
pub use time::{Clock, Moment, Span, SystemClock, NANOS_PER_MILLI, NANOS_PER_SEC};
pub use timer::{repaint_delay, time_is_up_notice, KeyPresses, KeyResponse, SessionState, Timer, TimerOp};
pub use watch::{Debounce, DEBOUNCE_NANOS};
