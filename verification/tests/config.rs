use pomodoro::app::App;
use pomodoro::settings::parse_settings;
use pomodoro::settings::Settings;
use pomodoro::settings::DEFAULT_BREAK_TIME;
use pomodoro::settings::DEFAULT_FOCUS_TIME;

#[test]
fn load_missing_file_gives_defaults_and_a_diagnostic() {
    let (settings, diagnostic) = Settings::load(None);
    assert_eq!(settings.focus_time, DEFAULT_FOCUS_TIME);
    assert_eq!(settings.break_time, DEFAULT_BREAK_TIME);
    assert!(!diagnostic.is_empty());

    // The timer still starts and runs normally on the fallback durations.
    let mut app = App::new(settings);
    app.reset_duration();
    app.start_timer();
    app.update();
    assert!(app.running);
    assert_eq!(app.ticks_remaining, DEFAULT_FOCUS_TIME * 5 - 1);
}

#[test]
fn load_well_formed_record_gives_its_values() {
    let text = String::from("{\"focus_time\":60,\"break_time\":5}");
    let (settings, diagnostic) = Settings::load(Some(&text));
    assert_eq!(settings, Settings::new(60, 5));
    assert!(diagnostic.is_empty());
}

#[test]
fn load_malformed_record_gives_defaults_and_a_diagnostic() {
    let text = String::from("five minutes, give or take");
    let (settings, diagnostic) = Settings::load(Some(&text));
    assert_eq!(settings, Settings::new(DEFAULT_FOCUS_TIME, DEFAULT_BREAK_TIME));
    assert!(!diagnostic.is_empty());
}

#[test]
fn parse_accepts_whitespace_and_either_field_order() {
    let text = " {\n\t\"break_time\" : 7 ,\r\n \"focus_time\" : 9 } ";
    assert_eq!(parse_settings(text), Some(Settings::new(9, 7)));
}

#[test]
fn parse_accepts_the_largest_value() {
    let text = "{\"focus_time\":18446744073709551615,\"break_time\":0}";
    assert_eq!(parse_settings(text), Some(Settings::new(u64::MAX, 0)));
}

#[test]
fn parse_rejects_a_missing_field() {
    assert_eq!(parse_settings("{\"focus_time\":5}"), None);
}

#[test]
fn parse_rejects_a_duplicated_field() {
    assert_eq!(parse_settings("{\"focus_time\":5,\"focus_time\":6}"), None);
}

#[test]
fn parse_rejects_a_leading_zero() {
    assert_eq!(parse_settings("{\"focus_time\":05,\"break_time\":5}"), None);
}

#[test]
fn parse_rejects_an_oversized_value() {
    // One past the largest 64-bit value.
    assert_eq!(parse_settings("{\"focus_time\":18446744073709551616,\"break_time\":5}"), None);
}

#[test]
fn parse_rejects_a_negative_value() {
    assert_eq!(parse_settings("{\"focus_time\":-5,\"break_time\":5}"), None);
}

#[test]
fn parse_rejects_trailing_text() {
    assert_eq!(parse_settings("{\"focus_time\":5,\"break_time\":5} extra"), None);
}

#[test]
fn parse_rejects_an_empty_document() {
    assert_eq!(parse_settings(""), None);
}

#[test]
fn save_renders_the_fixed_layout() {
    let out = Settings::save_settings(Settings::new(60, 5));
    assert_eq!(out, "{\"focus_time\":60,\"break_time\":5}");
}

#[test]
fn save_then_parse_round_trips() {
    let saved = Settings::save_settings(Settings::new(3600, 60));
    assert_eq!(parse_settings(&saved), Some(Settings::new(3600, 60)));
    let saved = Settings::save_settings(Settings::new(0, u64::MAX));
    assert_eq!(parse_settings(&saved), Some(Settings::new(0, u64::MAX)));
}

#[test]
fn update_settings_renders_the_stored_durations() {
    let mut app = App::new(Settings::new(600, 60));
    app.edit_duration(pomodoro::app::TimerMode::Break);
    app.increase_duration();
    app.set_duration();
    assert_eq!(app.break_time, 120);
    let out = app.update_settings();
    assert_eq!(out, "{\"focus_time\":600,\"break_time\":120}");
}
