use unfocol::{
    ColorParseError, LoadSettingsError, LoadThemesError, Message, OmarchyThemeError, ParseStopError,
    ParseThemeError, SettingsCorrection, SettingsLoadingOutcome, Severity,
};

#[test]
fn missing_settings_toml_produces_correct_message() {
    let io_error = std::io::Error::new(std::io::ErrorKind::NotFound, "No such file or directory");
    let load_settings_error = LoadSettingsError::FileUnreadable(io_error.to_string());
    let outcome = SettingsLoadingOutcome::Defaulted { load_settings_error };

    let message = Message::from_settings_loading_outcome(outcome).unwrap();

    assert!(matches!(message.severity, Severity::Error));
    assert!(message.message.contains("Reading settings.toml"));
}

#[test]
fn invalid_toml_produces_correct_message() {
    let toml_as_str = "invalid toml";
    let parse_toml_error = toml::from_str::<toml::Table>(toml_as_str).unwrap_err();
    let load_settings_error = LoadSettingsError::ParseTomlFailed(parse_toml_error.to_string());
    let outcome = SettingsLoadingOutcome::Defaulted { load_settings_error };

    let message = Message::from_settings_loading_outcome(outcome).unwrap();

    assert!(matches!(message.severity, Severity::Error));
    assert!(message.message.contains("Parsing the contents"));
}

#[test]
fn invalid_focus_time_produces_correct_message() {
    let value = 100;
    let corrections = vec![SettingsCorrection::InvalidFocusTime { value }];
    let outcome = SettingsLoadingOutcome::ParsedAndLoaded { corrections };

    let message = Message::from_settings_loading_outcome(outcome).unwrap();

    assert!(matches!(message.severity, Severity::Warning));
    assert!(message.message.contains("corrected to 25"))
}

#[test]
fn missing_selected_theme_produces_correct_message() {
    let non_existing_theme = "cauliflower".to_string();
    let corrections = vec![SettingsCorrection::InvalidSelectedTheme { non_existing_theme }];
    let outcome = SettingsLoadingOutcome::ParsedAndLoaded { corrections };

    let message = Message::from_settings_loading_outcome(outcome).unwrap();

    assert!(matches!(message.severity, Severity::Warning));
    assert!(message.message.contains("cauliflower"));
}

#[test]
fn first_run_gives_no_message() {
    assert!(Message::from_settings_loading_outcome(SettingsLoadingOutcome::FirstRun).is_none());
}

#[test]
fn load_without_corrections_gives_no_message() {
    let outcome = SettingsLoadingOutcome::ParsedAndLoaded { corrections: vec![] };
    assert!(Message::from_settings_loading_outcome(outcome).is_none());
}

#[test]
fn several_corrections_are_listed_line_by_line() {
    let corrections = vec![
        SettingsCorrection::InvalidFocusTime { value: 0 },
        SettingsCorrection::InvalidSelectedTheme { non_existing_theme: "kale".to_string() },
    ];
    let outcome = SettingsLoadingOutcome::ParsedAndLoaded { corrections };

    let message = Message::from_settings_loading_outcome(outcome).unwrap();

    assert_eq!(
        message.message,
        "Loading settings from settings.toml needed some correction(s):\n\
         focus_time = 0 is not a valid focus time and was corrected to 25\n\
         selected_theme = \"kale\" is not a known theme and was corrected to the default theme"
    );
}

#[test]
fn unreadable_settings_message_quotes_the_cause() {
    let outcome = SettingsLoadingOutcome::Defaulted {
        load_settings_error: LoadSettingsError::FileUnreadable("permission denied".to_string()),
    };
    let message = Message::from_settings_loading_outcome(outcome).unwrap();

    assert_eq!(
        message.message,
        "Reading settings.toml returned the error\npermission denied\nDefault settings have been used instead."
    );
}

#[test]
fn single_correction_message() {
    let message = Message::from_settings_correction(SettingsCorrection::InvalidFocusTime { value: 1234 });

    assert!(matches!(message.severity, Severity::Warning));
    assert_eq!(
        message.message,
        "Loading settings from settings.toml needed a correction:\n\
         focus_time = 1234 is not a valid focus time and was corrected to 25"
    );
}

#[test]
fn fixed_messages() {
    let welcome = Message::welcome_message();
    assert!(matches!(welcome.severity, Severity::Info));
    assert!(welcome.message.starts_with("Welcome to Unfocol!\n"));

    let up = Message::time_is_up();
    assert!(matches!(up.severity, Severity::Info));
    assert_eq!(up.message, "Focus time is up!");

    let save = Message::save_settings_failed();
    assert!(matches!(save.severity, Severity::Warning));
    assert!(save.message.starts_with("Failed to save settings to disk"));
}

#[test]
fn unreadable_themes_file_is_an_error() {
    let error = LoadThemesError::FileUnreadable {
        file: "/home/me/.config/unfocol/themes.toml".to_string(),
        io_error: "entity not found".to_string(),
    };
    let message = Message::from_load_themes_error(error);

    assert_eq!(message.severity, Severity::Error);
    assert_eq!(
        message.message,
        "Loading themes from /home/me/.config/unfocol/themes.toml failed with error entity not found.\n\
         Default themes have been loaded instead."
    );
}

#[test]
fn unparsable_themes_file_is_an_error() {
    let message = Message::from_load_themes_error(LoadThemesError::ParseTomlFailed("bad key".to_string()));

    assert_eq!(message.severity, Severity::Error);
    assert_eq!(
        message.message,
        "Parsing themes.toml failed with error \nbad key\nDefault themes have been loaded instead."
    );
}

#[test]
fn invalid_stop_progress_advises_fixing_progress() {
    let error = LoadThemesError::InvalidTheme {
        name: "Sunset".to_string(),
        parse_theme_error: ParseThemeError::InvalidStop(ParseStopError::InvalidProgressValue {
            value: "1.5".to_string(),
        }),
    };
    let message = Message::from_load_themes_error(error);

    assert_eq!(message.severity, Severity::Warning);
    assert_eq!(
        message.message,
        "The theme \"Sunset\" in themes.toml did not parse correctly with error: \
         Invalid stop: progress 1.5 is not a number from 0.0 to 1.0\n\
         Correct progress values and restart to try again."
    );
}

#[test]
fn invalid_stop_color_advises_fixing_hex() {
    let error = LoadThemesError::InvalidTheme {
        name: "Sea".to_string(),
        parse_theme_error: ParseThemeError::InvalidStop(ParseStopError::InvalidHexValue {
            value: "#zz".to_string(),
        }),
    };
    let message = Message::from_load_themes_error(error);

    assert!(message.message.ends_with("Correct hex code and restart to try again."));
    assert!(message.message.contains("Invalid stop: \"#zz\" is not a valid color"));
}

#[test]
fn invalid_idle_color_advises_fixing_hex() {
    let error = LoadThemesError::InvalidTheme {
        name: "Sea".to_string(),
        parse_theme_error: ParseThemeError::InvalidIdleValue { value: "blurple".to_string() },
    };
    let message = Message::from_load_themes_error(error);

    assert_eq!(
        message.message,
        "The theme \"Sea\" in themes.toml did not parse correctly with error: \
         invalid idle color \"blurple\"\nCorrect hex code and restart to try again."
    );
}

#[test]
fn too_few_stops_advises_two_stops() {
    let error = LoadThemesError::InvalidTheme {
        name: "Mono".to_string(),
        parse_theme_error: ParseThemeError::TooFewStops { count: 1 },
    };
    let message = Message::from_load_themes_error(error);

    assert_eq!(
        message.message,
        "The theme \"Mono\" in themes.toml did not parse correctly with error: \
         a theme needs at least two stops, but has 1\nMake sure that the theme has at least two stops."
    );
}

#[test]
fn non_monotonic_stops_advise_fixing_progress() {
    let error = LoadThemesError::InvalidTheme {
        name: "Mono".to_string(),
        parse_theme_error: ParseThemeError::NonMonotonicStops {
            previous: "0.7".to_string(),
            next: "0.3".to_string(),
        },
    };
    let message = Message::from_load_themes_error(error);

    assert!(message.message.contains("0.3 follows 0.7"));
    assert!(message.message.ends_with("Correct progress values and restart to try again."));
}

#[test]
fn missing_omarchy_colors_are_listed() {
    let error = OmarchyThemeError::MissingColor {
        missing_colors: vec!["background".to_string(), "foreground".to_string()],
    };
    let message = Message::from_omarchy_theme_error(error);

    assert_eq!(message.severity, Severity::Error);
    assert_eq!(
        message.message,
        "One or more vital colors were missing definitions in colors.toml: background, foreground"
    );
}

#[test]
fn omarchy_errors_pass_their_text_through() {
    let message = Message::from_omarchy_theme_error(OmarchyThemeError::TomlParsing("expected `=`".to_string()));
    assert_eq!(message.message, "expected `=`");

    let message = Message::from_omarchy_theme_error(OmarchyThemeError::ColorParsing(ColorParseError {
        message: "invalid hex format".to_string(),
    }));
    assert_eq!(message.message, "invalid hex format");

    let message = Message::from_load_themes_error(LoadThemesError::OmarchyRelated(
        OmarchyThemeError::FileUnreadable("gone".to_string()),
    ));
    assert_eq!(message.severity, Severity::Error);
    assert_eq!(message.message, "gone");
}

#[test]
fn startup_messages_come_in_order() {
    let theme_errors = vec![
        LoadThemesError::ParseTomlFailed("bad key".to_string()),
        LoadThemesError::InvalidTheme {
            name: "Mono".to_string(),
            parse_theme_error: ParseThemeError::TooFewStops { count: 1 },
        },
    ];
    let outcome = SettingsLoadingOutcome::Defaulted {
        load_settings_error: LoadSettingsError::ParseTomlFailed("oops".to_string()),
    };
    let correction = Some(SettingsCorrection::InvalidSelectedTheme { non_existing_theme: "kale".to_string() });

    let msgs = Message::startup_messages(theme_errors, outcome, true, correction);

    let severities: Vec<Severity> = msgs.iter().map(|m| m.severity).collect();
    assert_eq!(
        severities,
        vec![Severity::Error, Severity::Warning, Severity::Error, Severity::Info, Severity::Warning]
    );
    assert!(msgs[0].message.contains("bad key"));
    assert!(msgs[1].message.contains("\"Mono\""));
    assert!(msgs[2].message.contains("oops"));
    assert!(msgs[3].message.starts_with("Welcome to Unfocol!"));
    assert!(msgs[4].message.contains("kale"));
}

#[test]
fn first_run_always_welcomes() {
    let msgs = Message::startup_messages(vec![], SettingsLoadingOutcome::FirstRun, false, None);
    assert_eq!(msgs.len(), 1);
    assert_eq!(msgs[0].severity, Severity::Info);

    let quiet = SettingsLoadingOutcome::ParsedAndLoaded { corrections: vec![] };
    assert!(Message::startup_messages(vec![], quiet, false, None).is_empty());
}
