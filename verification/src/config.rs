//! What loading themes and settings can report: the errors, the corrections
//! made to settings, and how a settings load ended. Each has a text that
//! says it in words; the outside errors (I/O, TOML) arrive as their text.
use vstd::prelude::*;
use vstd::string::*;
use crate::color::ColorParseError;

verus! {

/// The focus time, in minutes, that replaces an invalid one.
pub const DEFAULT_FOCUS_TIME: u32 = 25;

/// The character of the decimal digit `d`.
pub open spec fn digit_char(d: nat) -> char {
    (d + 48) as char
}

/// The decimal digits of `n`, without leading zeros.
pub open spec fn decimal_digits(n: nat) -> Seq<char>
    decreases n,
{
    if n < 10 {
        seq![digit_char(n)]
    } else {
        decimal_digits(n / 10).push(digit_char(n % 10))
    }
}

/// The parts of `parts` in order, with `sep` between each two.
pub open spec fn joined(parts: Seq<Seq<char>>, sep: Seq<char>) -> Seq<char>
    decreases parts.len(),
{
    if parts.len() == 0 {
        Seq::empty()
    } else if parts.len() == 1 {
        parts[0]
    } else {
        joined(parts.drop_last(), sep) + sep + parts.last()
    }
}

/// The text of the decimal digit `d`.
fn digit_text(d: u64) -> (s: &'static str)
    requires
        d < 10,
    ensures
        s@ == seq![digit_char(d as nat)],
{
    if d == 0 {
        proof { reveal_strlit("0"); }
        "0"
    } else if d == 1 {
        proof { reveal_strlit("1"); }
        "1"
    } else if d == 2 {
        proof { reveal_strlit("2"); }
        "2"
    } else if d == 3 {
        proof { reveal_strlit("3"); }
        "3"
    } else if d == 4 {
        proof { reveal_strlit("4"); }
        "4"
    } else if d == 5 {
        proof { reveal_strlit("5"); }
        "5"
    } else if d == 6 {
        proof { reveal_strlit("6"); }
        "6"
    } else if d == 7 {
        proof { reveal_strlit("7"); }
        "7"
    } else if d == 8 {
        proof { reveal_strlit("8"); }
        "8"
    } else {
        proof { reveal_strlit("9"); }
        "9"
    }
}

/// `n` in decimal digits, without leading zeros or sign.
pub fn decimal_text(n: u64) -> (s: String)
    ensures
        s@ == decimal_digits(n as nat),
    decreases n,
{
    if n < 10 {
        String::from_str(digit_text(n))
    } else {
        let mut s = decimal_text(n / 10);
        s.append(digit_text(n % 10));
        s
    }
}

/// Joins the texts of `parts` with `sep` between each two.
pub fn join_strings(parts: &Vec<String>, sep: &str) -> (res: String)
    ensures
        res@ == joined(parts@.map_values(|p: String| p@), sep@),
{
    let ghost views = parts@.map_values(|p: String| p@);
    let mut res = String::new();
    let mut i: usize = 0;
    while i < parts.len()
        invariant
            i <= parts.len(),
            views == parts@.map_values(|p: String| p@),
            res@ == joined(views.take(i as int), sep@),
        decreases parts.len() - i,
    {
        if i > 0 {
            res.append(sep);
        }
        res.append(parts[i].as_str());
        assert(views.take(i + 1).drop_last() == views.take(i as int));
        i = i + 1;
    }
    assert(views.take(parts.len() as int) == views);
    res
}

/// Why one gradient stop of a theme could not be read.
#[derive(PartialEq, Eq, Debug)]
pub enum ParseStopError {
    /// The stop's progress, as written, is not a number in `0.0..=1.0`.
    InvalidProgressValue { value: String },
    /// The stop's color, as written, is not a CSS color.
    InvalidHexValue { value: String },
}

impl ParseStopError {
    pub open spec fn text(&self) -> Seq<char> {
        match self {
            ParseStopError::InvalidProgressValue { value } => "progress "@ + value@
                + " is not a number from 0.0 to 1.0"@,
            ParseStopError::InvalidHexValue { value } => "\""@ + value@ + "\" is not a valid color"@,
        }
    }

    /// This error in words.
    pub fn to_string(&self) -> (s: String)
        ensures
            s@ == self.text(),
    {
        match self {
            ParseStopError::InvalidProgressValue { value } => {
                String::from_str("progress ").concat(value.as_str()).concat(" is not a number from 0.0 to 1.0")
            },
            ParseStopError::InvalidHexValue { value } => {
                String::from_str("\"").concat(value.as_str()).concat("\" is not a valid color")
            },
        }
    }
}

/// Why a theme in `themes.toml` could not be read.
#[derive(PartialEq, Eq, Debug)]
pub enum ParseThemeError {
    InvalidIdleValue { value: String },
    InvalidClockBG { value: String },
    InvalidClockDigits { value: String },
    InvalidStop(ParseStopError),
    /// The first stop is not at progress 0.0 or the last not at 1.0.
    InvalidProgressBounds { first: String, last: String },
    /// A stop's progress does not exceed the one before it.
    NonMonotonicStops { previous: String, next: String },
    TooFewStops { count: u64 },
}

impl ParseThemeError {
    pub open spec fn text(&self) -> Seq<char> {
        match self {
            ParseThemeError::InvalidIdleValue { value } => "invalid idle color \""@ + value@ + "\""@,
            ParseThemeError::InvalidClockBG { value } => "invalid clock background color \""@ + value@
                + "\""@,
            ParseThemeError::InvalidClockDigits { value } => "invalid clock digits color \""@ + value@
                + "\""@,
            ParseThemeError::InvalidStop(e) => "invalid stop: "@ + e.text(),
            ParseThemeError::InvalidProgressBounds { first, last } =>
                "stops must run from progress 0.0 to 1.0, but run from "@ + first@ + " to "@ + last@,
            ParseThemeError::NonMonotonicStops { previous, next } =>
                "stop progress values must increase, but "@ + next@ + " follows "@ + previous@,
            ParseThemeError::TooFewStops { count } => "a theme needs at least two stops, but has "@
                + decimal_digits(*count as nat),
        }
    }

    /// This error in words.
    pub fn to_string(&self) -> (s: String)
        ensures
            s@ == self.text(),
    {
        match self {
            ParseThemeError::InvalidIdleValue { value } => {
                String::from_str("invalid idle color \"").concat(value.as_str()).concat("\"")
            },
            ParseThemeError::InvalidClockBG { value } => {
                String::from_str("invalid clock background color \"").concat(value.as_str()).concat("\"")
            },
            ParseThemeError::InvalidClockDigits { value } => {
                String::from_str("invalid clock digits color \"").concat(value.as_str()).concat("\"")
            },
            ParseThemeError::InvalidStop(e) => {
                let inner = e.to_string();
                String::from_str("invalid stop: ").concat(inner.as_str())
            },
            ParseThemeError::InvalidProgressBounds { first, last } => {
                String::from_str("stops must run from progress 0.0 to 1.0, but run from ").concat(
                    first.as_str(),
                ).concat(" to ").concat(last.as_str())
            },
            ParseThemeError::NonMonotonicStops { previous, next } => {
                String::from_str("stop progress values must increase, but ").concat(next.as_str()).concat(
                    " follows ",
                ).concat(previous.as_str())
            },
            ParseThemeError::TooFewStops { count } => {
                let digits = decimal_text(*count);
                String::from_str("a theme needs at least two stops, but has ").concat(digits.as_str())
            },
        }
    }
}

/// Why the Omarchy theme could not be built from Omarchy's `colors.toml`.
pub enum OmarchyThemeError {
    /// The file could not be read; holds the I/O error's text.
    FileUnreadable(String),
    /// The file is not valid TOML; holds the parser's text.
    TomlParsing(String),
    ColorParsing(ColorParseError),
    /// Colors that the theme needs are not defined in the file.
    MissingColor { missing_colors: Vec<String> },
}

/// Why loading `themes.toml` failed, in whole or for one theme.
pub enum LoadThemesError {
    /// The file could not be read; holds its path and the I/O error's text.
    FileUnreadable { file: String, io_error: String },
    /// The file is not valid TOML; holds the parser's text.
    ParseTomlFailed(String),
    InvalidTheme { name: String, parse_theme_error: ParseThemeError },
    OmarchyRelated(OmarchyThemeError),
}

/// Why `settings.toml` could not be loaded.
pub enum LoadSettingsError {
    /// The file could not be read; holds the I/O error's text.
    FileUnreadable(String),
    /// The file is not valid TOML; holds the parser's text.
    ParseTomlFailed(String),
}

/// A change made to a loaded setting that was not valid.
#[derive(PartialEq, Eq, Debug)]
pub enum SettingsCorrection {
    InvalidFocusTime { value: u32 },
    InvalidSelectedTheme { non_existing_theme: String },
}

impl SettingsCorrection {
    pub open spec fn text(&self) -> Seq<char> {
        match self {
            SettingsCorrection::InvalidFocusTime { value } => "focus_time = "@ + decimal_digits(*value as nat)
                + " is not a valid focus time and was corrected to "@ + decimal_digits(
                DEFAULT_FOCUS_TIME as nat,
            ),
            SettingsCorrection::InvalidSelectedTheme { non_existing_theme } => "selected_theme = \""@
                + non_existing_theme@ + "\" is not a known theme and was corrected to the default theme"@,
        }
    }

    /// This correction in words.
    pub fn to_string(&self) -> (s: String)
        ensures
            s@ == self.text(),
    {
        match self {
            SettingsCorrection::InvalidFocusTime { value } => {
                let given = decimal_text(*value as u64);
                let default = decimal_text(DEFAULT_FOCUS_TIME as u64);
                String::from_str("focus_time = ").concat(given.as_str()).concat(
                    " is not a valid focus time and was corrected to ",
                ).concat(default.as_str())
            },
            SettingsCorrection::InvalidSelectedTheme { non_existing_theme } => {
                String::from_str("selected_theme = \"").concat(non_existing_theme.as_str()).concat(
                    "\" is not a known theme and was corrected to the default theme",
                )
            },
        }
    }
}

/// How loading `settings.toml` ended.
pub enum SettingsLoadingOutcome {
    /// The file was read; `corrections` lists what had to be changed.
    ParsedAndLoaded { corrections: Vec<SettingsCorrection> },
    /// The file could not be loaded and the defaults were used.
    Defaulted { load_settings_error: LoadSettingsError },
    /// There was no file: the program runs for the first time.
    FirstRun,
}

} // verus!
