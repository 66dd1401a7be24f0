//! User-facing notifications and the texts they are built from.
use vstd::prelude::*;
use vstd::string::*;
use crate::config::{
    joined, LoadSettingsError, LoadThemesError, OmarchyThemeError, ParseStopError, ParseThemeError,
    SettingsCorrection, SettingsLoadingOutcome,
};

verus! {

fn default_themes_loaded() -> (s: &'static str)
    ensures
        s@ == "Default themes have been loaded instead."@,
{
    "Default themes have been loaded instead."
}

fn default_settings_loaded() -> (s: &'static str)
    ensures
        s@ == "Default settings have been used instead."@,
{
    "Default settings have been used instead."
}

fn correct_progress_values_and_restart() -> (s: &'static str)
    ensures
        s@ == "Correct progress values and restart to try again."@,
{
    "Correct progress values and restart to try again."
}

fn correct_hex_code_and_restart() -> (s: &'static str)
    ensures
        s@ == "Correct hex code and restart to try again."@,
{
    "Correct hex code and restart to try again."
}

/// How urgently a [`Message`] should be presented to the user.
#[derive(Clone, Copy, PartialEq, Eq, Structural, Debug)]
pub enum Severity {
    Error,
    Warning,
    Info,
}

/// A user-facing notification, shown in the notifications viewport.
pub struct Message {
    pub severity: Severity,
    pub message: String,
}

/// The details and the advice of the message about a theme that did not parse.
pub open spec fn theme_error_details(e: ParseThemeError) -> (Seq<char>, Seq<char>) {
    match e {
        ParseThemeError::InvalidStop(stop_error) => (
            "Invalid stop: "@ + stop_error.text(),
            match stop_error {
                ParseStopError::InvalidProgressValue { .. } => "Correct progress values and restart to try again."@,
                ParseStopError::InvalidHexValue { .. } => "Correct hex code and restart to try again."@,
            },
        ),
        ParseThemeError::InvalidIdleValue { .. } | ParseThemeError::InvalidClockBG { .. }
        | ParseThemeError::InvalidClockDigits { .. } => (
            e.text(),
            "Correct hex code and restart to try again."@,
        ),
        ParseThemeError::InvalidProgressBounds { .. } | ParseThemeError::NonMonotonicStops { .. } => (
            e.text(),
            "Correct progress values and restart to try again."@,
        ),
        ParseThemeError::TooFewStops { .. } => (
            e.text(),
            "Make sure that the theme has at least two stops."@,
        ),
    }
}

/// The text of the message about a failure to build the Omarchy theme.
pub open spec fn omarchy_error_text(e: OmarchyThemeError) -> Seq<char> {
    match e {
        OmarchyThemeError::FileUnreadable(text) => text@,
        OmarchyThemeError::TomlParsing(text) => text@,
        OmarchyThemeError::ColorParsing(error) => error.message@,
        OmarchyThemeError::MissingColor { missing_colors } =>
            "One or more vital colors were missing definitions in colors.toml: "@ + joined(
            missing_colors@.map_values(|c: String| c@),
            ", "@,
        ),
    }
}

/// The text of the message about a failure to load `themes.toml`.
pub open spec fn load_themes_error_text(e: LoadThemesError) -> Seq<char> {
    match e {
        LoadThemesError::FileUnreadable { file, io_error } => "Loading themes from "@ + file@
            + " failed with error "@ + io_error@ + ".\n"@ + "Default themes have been loaded instead."@,
        LoadThemesError::ParseTomlFailed(text) => "Parsing themes.toml failed with error \n"@ + text@ + "\n"@
            + "Default themes have been loaded instead."@,
        LoadThemesError::InvalidTheme { name, parse_theme_error } => {
            let (details, advice) = theme_error_details(parse_theme_error);
            "The theme \""@ + name@ + "\" in themes.toml did not parse correctly with error: "@ + details
                + "\n"@ + advice
        },
        LoadThemesError::OmarchyRelated(o) => omarchy_error_text(o),
    }
}

/// The severity of the message about a failure to load `themes.toml`.
pub open spec fn load_themes_error_severity(e: LoadThemesError) -> Severity {
    match e {
        LoadThemesError::InvalidTheme { .. } => Severity::Warning,
        _ => Severity::Error,
    }
}

/// The texts of a list of corrections, in order.
pub open spec fn correction_texts(corrections: Seq<SettingsCorrection>) -> Seq<Seq<char>> {
    corrections.map_values(|c: SettingsCorrection| c.text())
}

/// The message, if any, that a settings load that ended with `outcome` gives.
pub open spec fn settings_outcome_message(outcome: SettingsLoadingOutcome) -> Option<(Severity, Seq<char>)> {
    match outcome {
        SettingsLoadingOutcome::ParsedAndLoaded { corrections } => if corrections@.len() == 0 {
            None
        } else {
            Some(
                (
                    Severity::Warning,
                    "Loading settings from settings.toml needed some correction(s):\n"@ + joined(
                        correction_texts(corrections@),
                        "\n"@,
                    ),
                ),
            )
        },
        SettingsLoadingOutcome::Defaulted { load_settings_error } => Some(
            (
                Severity::Error,
                match load_settings_error {
                    LoadSettingsError::FileUnreadable(text) => "Reading settings.toml returned the error\n"@
                        + text@ + "\n"@ + "Default settings have been used instead."@,
                    LoadSettingsError::ParseTomlFailed(text) =>
                        "Parsing the contents of settings.toml failed with the error\n"@ + text@ + "\n"@
                        + "Default settings have been used instead."@,
                },
            ),
        ),
        SettingsLoadingOutcome::FirstRun => None,
    }
}


/// The severity and text of a message.
pub open spec fn message_view(m: Message) -> (Severity, Seq<char>) {
    (m.severity, m.message@)
}

/// The text of the welcome message.
pub open spec fn welcome_text() -> Seq<char> {
    "Welcome to Unfocol!\nPress Space to start or pause focus timer, R to reset, S for Settings and Q to quit.\nDisable this message in settings."@
}

/// The messages shown at start-up, in order: one per failure to load
/// themes, then the one about how loading the settings ended (if any), then
/// the welcome (where the settings ask for it, and always on a first run),
/// then the one about a correction to the selected theme (if any).
pub open spec fn startup_message_views(
    theme_errors: Seq<LoadThemesError>,
    outcome: SettingsLoadingOutcome,
    show_welcome_message: bool,
    theme_correction: Option<SettingsCorrection>,
) -> Seq<(Severity, Seq<char>)> {
    let errors = theme_errors.map_values(
        |e: LoadThemesError| (load_themes_error_severity(e), load_themes_error_text(e)),
    );
    let settings = match settings_outcome_message(outcome) {
        Some(m) => seq![m],
        None => Seq::empty(),
    };
    let welcome = if show_welcome_message || outcome is FirstRun {
        seq![(Severity::Info, welcome_text())]
    } else {
        Seq::empty()
    };
    let correction = match theme_correction {
        Some(c) => seq![(Severity::Warning, "Loading settings from settings.toml needed a correction:\n"@ + c.text())],
        None => Seq::empty(),
    };
    errors + settings + welcome + correction
}

/// How many messages the settings outcome adds at start-up: one or none.
pub open spec fn settings_message_count(outcome: SettingsLoadingOutcome) -> int {
    if settings_outcome_message(outcome) is Some { 1 } else { 0 }
}

/// Whether the welcome is shown at start-up: where the settings ask for it,
/// and always on a first run.
pub open spec fn shows_welcome(outcome: SettingsLoadingOutcome, show_welcome_message: bool) -> bool {
    show_welcome_message || outcome is FirstRun
}

/// The start-up messages hold one per failure to load themes, at most one
/// about the settings, the welcome exactly once where it is shown and
/// never otherwise, and at most one about the correction. The welcome is
/// the only informational message, and it comes right after the messages
/// about loading.
pub proof fn lemma_startup_welcome_once(
    theme_errors: Seq<LoadThemesError>,
    outcome: SettingsLoadingOutcome,
    show_welcome_message: bool,
    theme_correction: Option<SettingsCorrection>,
)
    ensures
        ({
            let views = startup_message_views(theme_errors, outcome, show_welcome_message, theme_correction);
            let welcome_at = theme_errors.len() + settings_message_count(outcome);
            &&& views.len() == theme_errors.len() + settings_message_count(outcome) + (if shows_welcome(
                outcome,
                show_welcome_message,
            ) { 1int } else { 0int }) + (if theme_correction is Some { 1int } else { 0int })
            &&& forall|i: int| 0 <= i < views.len() ==> ((#[trigger] views[i]).0 == Severity::Info <==> (shows_welcome(
                outcome,
                show_welcome_message,
            ) && i == welcome_at))
            &&& shows_welcome(outcome, show_welcome_message) ==> views[welcome_at] == (Severity::Info, welcome_text())
        }),
{
    let views = startup_message_views(theme_errors, outcome, show_welcome_message, theme_correction);
    let errors = theme_errors.map_values(
        |e: LoadThemesError| (load_themes_error_severity(e), load_themes_error_text(e)),
    );
    let settings = match settings_outcome_message(outcome) {
        Some(m) => seq![m],
        None => Seq::empty(),
    };
    let welcome = if show_welcome_message || outcome is FirstRun {
        seq![(Severity::Info, welcome_text())]
    } else {
        Seq::empty()
    };
    let correction = match theme_correction {
        Some(c) => seq![(Severity::Warning, "Loading settings from settings.toml needed a correction:\n"@ + c.text())],
        None => Seq::empty(),
    };
    assert(views == errors + settings + welcome + correction);
    assert(forall|i: int| 0 <= i < errors.len() ==> (#[trigger] errors[i]).0 != Severity::Info);
    assert(forall|i: int| 0 <= i < settings.len() ==> (#[trigger] settings[i]).0 != Severity::Info);
    assert(forall|i: int| 0 <= i < correction.len() ==> (#[trigger] correction[i]).0 != Severity::Info);
    let a = errors.len() as int;
    let b = a + settings.len();
    let c = b + welcome.len();
    assert forall|i: int| 0 <= i < views.len() implies ((#[trigger] views[i]).0 == Severity::Info <==> (shows_welcome(
        outcome,
        show_welcome_message,
    ) && i == a + settings_message_count(outcome))) by {
        if i < a {
            assert(views[i] == errors[i]);
        } else if i < b {
            assert(views[i] == settings[i - a]);
        } else if i < c {
            assert(views[i] == welcome[i - b]);
        } else {
            assert(views[i] == correction[i - c]);
        }
    }
    if shows_welcome(outcome, show_welcome_message) {
        assert(views[b] == welcome[0]);
    }
}

/// A settings load gives no message exactly on a first run and on a load
/// that needed no correction; a load that fell back to the defaults is an
/// error, one that needed corrections a warning.
pub proof fn lemma_settings_outcome_reported(outcome: SettingsLoadingOutcome)
    ensures
        settings_outcome_message(outcome) is None <==> (outcome is FirstRun || (outcome matches SettingsLoadingOutcome::ParsedAndLoaded { corrections } && corrections@.len() == 0)),
        outcome is Defaulted ==> settings_outcome_message(outcome).unwrap().0 == Severity::Error,
        (outcome matches SettingsLoadingOutcome::ParsedAndLoaded { corrections } && corrections@.len() > 0)
            ==> settings_outcome_message(outcome).unwrap().0 == Severity::Warning,
{
}

/// Whether `part` occurs in `text`.
pub open spec fn quotes(text: Seq<char>, part: Seq<char>) -> bool {
    exists|i: int| 0 <= i && i + part.len() <= text.len() && #[trigger] text.subrange(i, i + part.len()) == part
}

/// The text of the cause of a failed settings load.
pub open spec fn settings_error_cause(error: LoadSettingsError) -> Seq<char> {
    match error {
        LoadSettingsError::FileUnreadable(t) => t@,
        LoadSettingsError::ParseTomlFailed(t) => t@,
    }
}

/// The message about a settings load that fell back to the defaults quotes
/// the cause's text in full.
pub proof fn lemma_settings_error_quoted(error: LoadSettingsError)
    ensures
        quotes(
            settings_outcome_message(SettingsLoadingOutcome::Defaulted { load_settings_error: error }).unwrap().1,
            settings_error_cause(error),
        ),
{
    let cause = settings_error_cause(error);
    let text = settings_outcome_message(SettingsLoadingOutcome::Defaulted { load_settings_error: error }).unwrap().1;
    let head = match error {
        LoadSettingsError::FileUnreadable(_) => "Reading settings.toml returned the error\n"@,
        LoadSettingsError::ParseTomlFailed(_) => "Parsing the contents of settings.toml failed with the error\n"@,
    };
    let i = head.len() as int;
    assert(text == head + cause + "\n"@ + "Default settings have been used instead."@);
    assert(text.subrange(i, i + cause.len()) == cause);
}

/// A theme that fails to parse is a warning; every other failure to load
/// themes is an error.
pub proof fn lemma_theme_failures_severity(error: LoadThemesError)
    ensures
        error is InvalidTheme <==> load_themes_error_severity(error) == Severity::Warning,
        !(error is InvalidTheme) <==> load_themes_error_severity(error) == Severity::Error,
{
}

impl Message {
    /// An informational message shown on first run (or whenever
    /// `show_welcome_message` is enabled), explaining the keyboard controls.
    pub fn welcome_message() -> (m: Self)
        ensures
            m.severity == Severity::Info,
            m.message@ == welcome_text(),
    {
        let message = String::from_str(
            "Welcome to Unfocol!\nPress Space to start or pause focus timer, R to reset, S for Settings and Q to quit.\nDisable this message in settings.",
        );
        Message { severity: Severity::Info, message }
    }

    /// An informational message shown when a focus session's time runs out.
    pub fn time_is_up() -> (m: Self)
        ensures
            m.severity == Severity::Info,
            m.message@ == "Focus time is up!"@,
    {
        Message { severity: Severity::Info, message: String::from_str("Focus time is up!") }
    }

    /// A warning shown when writing `settings.toml` to disk fails.
    pub fn save_settings_failed() -> (m: Self)
        ensures
            m.severity == Severity::Warning,
            m.message@
                == "Failed to save settings to disk, your changes might not persist. Check free space and file permissions."@,
    {
        let message = String::from_str(
            "Failed to save settings to disk, your changes might not persist. Check free space and file permissions.",
        );
        Message { severity: Severity::Warning, message }
    }

    /// Builds the messages to show at start-up from what loading themes and
    /// settings reported: one per failure to load themes, the one about how
    /// loading the settings ended (if any), the welcome (where the settings
    /// ask for it, and always on a first run), and the one about a
    /// correction to the selected theme (if any), in that order.
    pub fn startup_messages(
        theme_errors: Vec<LoadThemesError>,
        outcome: SettingsLoadingOutcome,
        show_welcome_message: bool,
        theme_correction: Option<SettingsCorrection>,
    ) -> (msgs: Vec<Message>)
        ensures
            msgs@.map_values(|m: Message| message_view(m)) == startup_message_views(
                theme_errors@,
                outcome,
                show_welcome_message,
                theme_correction,
            ),
            msgs.len() == theme_errors.len() + settings_message_count(outcome) + (if shows_welcome(
                outcome,
                show_welcome_message,
            ) { 1int } else { 0int }) + (if theme_correction is Some { 1int } else { 0int }),
    {
        proof {
            lemma_startup_welcome_once(theme_errors@, outcome, show_welcome_message, theme_correction);
        }
        let ghost errors0 = theme_errors@;
        let ghost error_views = errors0.map_values(
            |e: LoadThemesError| (load_themes_error_severity(e), load_themes_error_text(e)),
        );
        let first_run = match outcome {
            SettingsLoadingOutcome::FirstRun => true,
            _ => false,
        };
        let ghost outcome0 = outcome;
        let total = theme_errors.len();
        assert(errors0.len() == total);
        let mut errors = theme_errors;
        let mut msgs: Vec<Message> = Vec::new();
        let mut k: usize = 0;
        while errors.len() > 0
            invariant
                k <= errors0.len(),
                errors0.len() <= usize::MAX,
                msgs.len() == k,
                errors@ == errors0.skip(k as int),
                msgs@.map_values(|m: Message| message_view(m)) == error_views.take(k as int),
                error_views == errors0.map_values(
                    |e: LoadThemesError| (load_themes_error_severity(e), load_themes_error_text(e)),
                ),
            decreases errors.len(),
        {
            let e = errors.remove(0);
            assert(e == errors0[k as int]);
            let ghost before = msgs@;
            msgs.push(Message::from_load_themes_error(e));
            assert(error_views.take(k + 1) == error_views.take(k as int).push(error_views[k as int]));
            assert(msgs@.map_values(|m: Message| message_view(m)) == before.map_values(
                |m: Message| message_view(m),
            ).push(message_view(msgs@[k as int])));
            k = k + 1;
        }
        assert(error_views.take(k as int) == error_views);
        let ghost after_errors = msgs@;
        match Message::from_settings_loading_outcome(outcome) {
            Some(m) => {
                msgs.push(m);
            },
            None => {},
        }
        let ghost after_settings = msgs@;
        if show_welcome_message || first_run {
            msgs.push(Message::welcome_message());
        }
        let ghost after_welcome = msgs@;
        match theme_correction {
            Some(c) => {
                msgs.push(Message::from_settings_correction(c));
            },
            None => {},
        }
        proof {
            let views = |m: Message| message_view(m);
            assert(after_settings.map_values(views) == after_errors.map_values(views) + match settings_outcome_message(outcome0) {
                Some(m) => seq![m],
                None => Seq::empty(),
            });
            assert(after_welcome.map_values(views) == after_settings.map_values(views) + if show_welcome_message || outcome0 is FirstRun {
                seq![(Severity::Info, welcome_text())]
            } else {
                Seq::empty()
            });
        }
        msgs
    }

    /// Builds a user-facing message explaining a failure to load
    /// `themes.toml`, with advice on how to fix it where there is some.
    pub fn from_load_themes_error(error: LoadThemesError) -> (m: Self)
        ensures
            m.severity == load_themes_error_severity(error),
            m.message@ == load_themes_error_text(error),
    {
        match error {
            LoadThemesError::FileUnreadable { file, io_error } => {
                let message = String::from_str("Loading themes from ").concat(file.as_str()).concat(
                    " failed with error ",
                ).concat(io_error.as_str()).concat(".\n").concat(default_themes_loaded());
                Message { severity: Severity::Error, message }
            },
            LoadThemesError::ParseTomlFailed(parsing_error) => {
                let message = String::from_str("Parsing themes.toml failed with error \n").concat(
                    parsing_error.as_str(),
                ).concat("\n").concat(default_themes_loaded());
                Message { severity: Severity::Error, message }
            },
            LoadThemesError::InvalidTheme { name, parse_theme_error } => {
                let (details, advice) = Self::theme_error_details(&parse_theme_error);
                let message = String::from_str("The theme \"").concat(name.as_str()).concat(
                    "\" in themes.toml did not parse correctly with error: ",
                ).concat(details.as_str()).concat("\n").concat(advice);
                Message { severity: Severity::Warning, message }
            },
            LoadThemesError::OmarchyRelated(e) => Self::from_omarchy_theme_error(e),
        }
    }

    fn theme_error_details(e: &ParseThemeError) -> (r: (String, &'static str))
        ensures
            r.0@ == theme_error_details(*e).0,
            r.1@ == theme_error_details(*e).1,
    {
        match e {
            ParseThemeError::InvalidStop(stop_error) => {
                let inner = stop_error.to_string();
                let details = String::from_str("Invalid stop: ").concat(inner.as_str());
                let advice = match stop_error {
                    ParseStopError::InvalidProgressValue { .. } => correct_progress_values_and_restart(),
                    ParseStopError::InvalidHexValue { .. } => correct_hex_code_and_restart(),
                };
                (details, advice)
            },
            ParseThemeError::InvalidIdleValue { .. } | ParseThemeError::InvalidClockBG { .. }
            | ParseThemeError::InvalidClockDigits { .. } => (e.to_string(), correct_hex_code_and_restart()),
            ParseThemeError::InvalidProgressBounds { .. } | ParseThemeError::NonMonotonicStops { .. } => (
                e.to_string(),
                correct_progress_values_and_restart(),
            ),
            ParseThemeError::TooFewStops { .. } => (
                e.to_string(),
                "Make sure that the theme has at least two stops.",
            ),
        }
    }

    /// Builds a user-facing message from how a settings load ended, if that
    /// is worth telling the user about: `None` for a first run and for a
    /// load that needed no correction.
    pub fn from_settings_loading_outcome(outcome: SettingsLoadingOutcome) -> (m: Option<Self>)
        ensures
            m is None <==> settings_outcome_message(outcome) is None,
            m matches Some(msg) ==> settings_outcome_message(outcome) == Some((msg.severity, msg.message@)),
    {
        match outcome {
            SettingsLoadingOutcome::ParsedAndLoaded { corrections } => {
                if corrections.len() == 0 {
                    return None;
                }
                let mut texts: Vec<String> = Vec::new();
                let mut i: usize = 0;
                while i < corrections.len()
                    invariant
                        i <= corrections.len(),
                        texts@.len() == i,
                        forall|j: int| 0 <= j < i ==> #[trigger] texts@[j]@ == corrections@[j].text(),
                    decreases corrections.len() - i,
                {
                    texts.push(corrections[i].to_string());
                    i = i + 1;
                }
                assert(texts@.map_values(|p: String| p@) == correction_texts(corrections@));
                let details = crate::config::join_strings(&texts, "\n");
                let message = String::from_str(
                    "Loading settings from settings.toml needed some correction(s):\n",
                ).concat(details.as_str());
                Some(Message { severity: Severity::Warning, message })
            },
            SettingsLoadingOutcome::Defaulted { load_settings_error } => {
                let message = match load_settings_error {
                    LoadSettingsError::FileUnreadable(error) => {
                        String::from_str("Reading settings.toml returned the error\n").concat(
                            error.as_str(),
                        ).concat("\n").concat(default_settings_loaded())
                    },
                    LoadSettingsError::ParseTomlFailed(error) => {
                        String::from_str("Parsing the contents of settings.toml failed with the error\n").concat(
                            error.as_str(),
                        ).concat("\n").concat(default_settings_loaded())
                    },
                };
                Some(Message { severity: Severity::Error, message })
            },
            SettingsLoadingOutcome::FirstRun => None,
        }
    }

    /// Builds a warning explaining a single correction that was applied to
    /// the user's settings.
    pub fn from_settings_correction(correction: SettingsCorrection) -> (m: Self)
        ensures
            m.severity == Severity::Warning,
            m.message@ == "Loading settings from settings.toml needed a correction:\n"@ + correction.text(),
    {
        let text = correction.to_string();
        let message = String::from_str("Loading settings from settings.toml needed a correction:\n").concat(
            text.as_str(),
        );
        Message { severity: Severity::Warning, message }
    }

    /// Builds an error message explaining why building the Omarchy theme
    /// failed.
    pub fn from_omarchy_theme_error(omarchy_theme_error: OmarchyThemeError) -> (m: Self)
        ensures
            m.severity == Severity::Error,
            m.message@ == omarchy_error_text(omarchy_theme_error),
    {
        let message = match omarchy_theme_error {
            OmarchyThemeError::FileUnreadable(error) => error,
            OmarchyThemeError::TomlParsing(error) => error,
            OmarchyThemeError::ColorParsing(error) => error.message,
            OmarchyThemeError::MissingColor { missing_colors } => {
                let names = crate::config::join_strings(&missing_colors, ", ");
                String::from_str("One or more vital colors were missing definitions in colors.toml: ").concat(
                    names.as_str(),
                )
            },
        };
        Message { severity: Severity::Error, message }
    }
}

} // verus!
