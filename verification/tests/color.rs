use unfocol::{color_source, join_strings, Color, ColorSource, Debounce, Moment, SessionState, Span, DEBOUNCE_NANOS};

#[test]
fn parses_hex_colors() {
    let c = Color::from_str("#00cc00").ok().unwrap();
    assert_eq!(c, Color { r: 0, g: 204, b: 0 });
}

#[test]
fn parses_named_and_functional_colors() {
    assert_eq!(Color::from_str("red").ok().unwrap(), Color { r: 255, g: 0, b: 0 });
    assert_eq!(Color::from_str("rgb(10, 20, 30)").ok().unwrap(), Color { r: 10, g: 20, b: 30 });
    let parsed: Color = "#ffffff".parse().ok().unwrap();
    assert_eq!(parsed, Color::white());
}

#[test]
fn rejects_what_is_not_a_color() {
    let err = Color::from_str("#zz0000").err().unwrap();
    assert!(!err.message.is_empty());
    assert!(Color::from_str("not a color").is_err());
}

#[test]
fn alpha_is_dropped() {
    assert_eq!(Color::from_rgba8([1, 2, 3, 4]), Color { r: 1, g: 2, b: 3 });
    assert_eq!(Color::from_str("#01020380").ok().unwrap(), Color { r: 1, g: 2, b: 3 });
}

#[test]
fn fixed_colors() {
    assert_eq!(Color::black(), Color { r: 0, g: 0, b: 0 });
    assert_eq!(Color::white(), Color { r: 255, g: 255, b: 255 });
    assert_eq!(Color::idle(), Color { r: 0, g: 204, b: 204 });
}

#[test]
fn joins_with_separator() {
    let parts = vec!["a".to_string(), "bc".to_string(), "".to_string()];
    assert_eq!(join_strings(&parts, ", "), "a, bc, ");
    assert_eq!(join_strings(&vec![], ", "), "");
}

#[test]
fn debounce_waits_for_quiet() {
    let mut d = Debounce::new();
    assert!(!d.is_pending());
    assert!(!d.should_reload(false, Moment::from_nanos(0)));

    assert!(!d.should_reload(true, Moment::from_nanos(1_000)));
    assert!(d.is_pending());
    assert!(!d.should_reload(false, Moment::from_nanos(1_000 + DEBOUNCE_NANOS - 1)));
    assert!(!d.should_reload(true, Moment::from_nanos(1_000 + DEBOUNCE_NANOS)));
    assert!(d.should_reload(false, Moment::from_nanos(1_000 + 2 * DEBOUNCE_NANOS)));
    assert!(!d.is_pending());
    assert!(!d.should_reload(false, Moment::from_nanos(1_000 + 10 * DEBOUNCE_NANOS)));
}

#[test]
fn debounce_window_is_150_ms() {
    assert_eq!(Debounce::window().nanos, 150_000_000);
}

#[test]
fn color_source_follows_settings_then_timer() {
    let idle = SessionState::Idle { remaining_time: Span::from_secs(60) };
    let running = SessionState::Running {
        started_at: Moment::from_nanos(0),
        remaining_time_at_start: Span::from_secs(60),
    };
    assert_eq!(color_source(true, true, &running), ColorSource::Idle);
    assert_eq!(color_source(true, false, &idle), ColorSource::SettingsPreview);
    assert_eq!(color_source(false, true, &idle), ColorSource::Idle);
    assert_eq!(color_source(false, false, &running), ColorSource::SessionProgress);
}

#[test]
fn every_byte_survives_hex_notation() {
    for v in 0..=255u8 {
        let c = Color::from_str(&format!("#{v:02x}{v:02X}00")).ok().unwrap();
        assert_eq!(c, Color { r: v, g: v, b: 0 });
    }
    for d in 0..16u8 {
        let c = Color::from_str(&format!("#{d:x}0{d:X}f")).ok().unwrap();
        assert_eq!(c, Color { r: d * 17, g: 0, b: d * 17 });
    }
}

#[test]
fn bad_hex_notation_is_rejected_with_the_hex_message() {
    for text in ["#", "#12", "#12345", "#1234567", "#123456789", "#00gg00"] {
        let err = Color::from_str(text).err().unwrap();
        assert_eq!(err.message, "invalid hex format");
    }
}

#[test]
fn plain_words_are_read_as_names_hex_or_transparent() {
    assert_eq!(Color::from_str("teal").ok().unwrap(), Color { r: 0, g: 128, b: 128 });
    assert_eq!(Color::from_str("RebeccaPurple").ok().unwrap(), Color { r: 102, g: 51, b: 153 });
    assert_eq!(Color::from_str("TRANSPARENT").ok().unwrap(), Color { r: 0, g: 0, b: 0 });
    assert_eq!(Color::from_str("0c0").ok().unwrap(), Color { r: 0, g: 204, b: 0 });
    assert_eq!(Color::from_str("ff8000").ok().unwrap(), Color { r: 255, g: 128, b: 0 });
    assert_eq!(Color::from_str("nosuchcolor").err().unwrap().message, "invalid unknown format");
    assert_eq!(Color::from_str("").err().unwrap().message, "invalid unknown format");
}
