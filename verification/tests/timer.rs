use pomodoro::app::App;
use pomodoro::app::Command;
use pomodoro::app::KeybindMode;
use pomodoro::app::Status;
use pomodoro::app::TimerMode;
use pomodoro::app::MAX_BREAK_DURATION;
use pomodoro::app::MAX_FOCUS_DURATION;
use pomodoro::app::MIN_BREAK_DURATION;
use pomodoro::app::MIN_FOCUS_DURATION;
use pomodoro::settings::Settings;

#[test]
fn new_app_starts_disarmed_and_stopped() {
    let app = App::new(Settings::new(60, 5));
    assert_eq!(app.focus_time, 60);
    assert_eq!(app.break_time, 5);
    assert_eq!(app.ticks_remaining, 0);
    assert_eq!(app.time_remaining, 0);
    assert_eq!(app.current_max, 60);
    assert!(!app.running);
    assert_eq!(app.timer_mode, TimerMode::Focus);
    assert_eq!(app.keybind_mode, KeybindMode::TimerControl);
    assert!(app.messages.is_empty());
}

#[test]
fn new_app_caps_oversized_durations() {
    let app = App::new(Settings::new(u64::MAX, 1_000_000));
    assert_eq!(app.focus_time, MAX_FOCUS_DURATION);
    assert_eq!(app.break_time, MAX_BREAK_DURATION);
}

#[test]
fn reset_rearms_to_active_mode_and_stops() {
    let mut app = App::new(Settings::new(90, 5));
    app.start_timer();
    app.reset_duration();
    assert!(!app.running);
    assert_eq!(app.time_remaining, 90);
    assert_eq!(app.current_max, 90);
    assert_eq!(app.ticks_remaining, 450);
}

#[test]
fn update_without_running_changes_nothing() {
    let mut app = App::new(Settings::new(60, 5));
    app.reset_duration();
    let ticks_before = app.ticks_remaining;
    app.update();
    assert_eq!(app.ticks_remaining, ticks_before);
    assert_eq!(app.time_remaining, 60);
    assert!(!app.running);
}

#[test]
fn focus_cycle_completes_into_break() {
    // Defaults focus = 60 s, break = 5 s: after arming and starting, 300
    // ticks (60 s at 5 ticks per second) exhaust the countdown, and the
    // very next tick switches to the break cycle, still running.
    let mut app = App::new(Settings::new(60, 5));
    app.reset_duration();
    app.start_timer();
    for _ in 0..300 {
        app.update();
    }
    assert_eq!(app.time_remaining, 0);
    assert_eq!(app.ticks_remaining, 0);
    app.update();
    assert_eq!(app.timer_mode, TimerMode::Break);
    assert_eq!(app.time_remaining, 5);
    assert_eq!(app.current_max, 5);
    assert!(app.running);
}

#[test]
fn completed_break_returns_to_focus_still_running() {
    let mut app = App::new(Settings::new(60, 5));
    app.switch_timer_mode();
    assert_eq!(app.timer_mode, TimerMode::Break);
    app.start_timer();
    for _ in 0..25 {
        app.update();
    }
    assert_eq!(app.ticks_remaining, 0);
    app.update();
    assert_eq!(app.timer_mode, TimerMode::Focus);
    assert_eq!(app.time_remaining, 60);
    assert!(app.running);
}

#[test]
fn progress_numerator_never_exceeds_denominator() {
    let mut app = App::new(Settings::new(60, 5));
    app.reset_duration();
    app.start_timer();
    for _ in 0..350 {
        app.update();
        assert!(app.ticks_remaining <= app.current_max * 5);
        if app.ticks_remaining == 0 {
            assert_eq!(app.time_remaining, 0);
        }
    }
}

#[test]
fn edit_focus_decrease_and_commit() {
    // Editing the 600 s focus duration: two downward steps of 60 s
    // propose 480 s, and committing stores it and closes the session.
    let mut app = App::new(Settings::new(600, 60));
    app.edit_duration(TimerMode::Focus);
    assert_eq!(app.duration, 600);
    assert_eq!(app.keybind_mode, KeybindMode::Editing);
    app.decrease_duration();
    app.decrease_duration();
    assert_eq!(app.duration, 480);
    app.set_duration();
    assert_eq!(app.focus_time, 480);
    assert!(!app.is_editing_duration());
    assert_eq!(app.keybind_mode, KeybindMode::TimerControl);
}

#[test]
fn adjust_round_trip_returns_to_start() {
    let mut app = App::new(Settings::new(600, 60));
    app.edit_duration(TimerMode::Focus);
    app.increase_duration();
    assert_eq!(app.duration, 660);
    app.decrease_duration();
    assert_eq!(app.duration, 600);
}

#[test]
fn adjust_is_clamped_at_the_bounds() {
    let mut app = App::new(Settings::new(MAX_FOCUS_DURATION, MIN_BREAK_DURATION));
    app.edit_duration(TimerMode::Focus);
    app.increase_duration();
    assert_eq!(app.duration, MAX_FOCUS_DURATION);
    app.increase_duration();
    assert_eq!(app.duration, MAX_FOCUS_DURATION);
    app.edit_duration(TimerMode::Break);
    app.decrease_duration();
    assert_eq!(app.duration, MIN_BREAK_DURATION);
    app.decrease_duration();
    assert_eq!(app.duration, MIN_BREAK_DURATION);
}

#[test]
fn decrease_snaps_up_to_the_lower_bound() {
    let mut app = App::new(Settings::new(60, 5));
    app.edit_duration(TimerMode::Focus);
    app.decrease_duration();
    assert_eq!(app.duration, MIN_FOCUS_DURATION);
    app.edit_duration(TimerMode::Break);
    app.decrease_duration();
    assert_eq!(app.duration, MIN_BREAK_DURATION);
}

#[test]
fn decrease_clamps_instead_of_undershooting() {
    // A 90 s proposal sits less than one step above the 60 s minimum: the
    // downward step snaps to the bound instead of landing at 30 s.
    let mut app = App::new(Settings::new(90, 90));
    app.edit_duration(TimerMode::Focus);
    app.decrease_duration();
    assert_eq!(app.duration, MIN_FOCUS_DURATION);
    app.edit_duration(TimerMode::Break);
    app.decrease_duration();
    assert_eq!(app.duration, MIN_BREAK_DURATION);
}

#[test]
fn commit_of_inactive_mode_leaves_countdown_alone() {
    // Editing the focus duration while the break cycle is active must not
    // re-arm the countdown.
    let mut app = App::new(Settings::new(600, 60));
    app.switch_timer_mode();
    assert_eq!(app.timer_mode, TimerMode::Break);
    let max_before = app.current_max;
    let ticks_before = app.ticks_remaining;
    let time_before = app.time_remaining;
    app.edit_duration(TimerMode::Focus);
    app.increase_duration();
    app.set_duration();
    assert_eq!(app.focus_time, 660);
    assert_eq!(app.current_max, max_before);
    assert_eq!(app.ticks_remaining, ticks_before);
    assert_eq!(app.time_remaining, time_before);
}

#[test]
fn commit_of_active_stopped_mode_rearms_at_once() {
    let mut app = App::new(Settings::new(600, 60));
    assert!(!app.running);
    app.edit_duration(TimerMode::Focus);
    app.decrease_duration();
    app.set_duration();
    assert_eq!(app.focus_time, 540);
    assert_eq!(app.current_max, 540);
    assert_eq!(app.time_remaining, 540);
    assert_eq!(app.ticks_remaining, 540 * 5);
}

#[test]
fn retargeting_an_open_edit_takes_the_other_duration() {
    let mut app = App::new(Settings::new(600, 60));
    app.edit_duration(TimerMode::Focus);
    assert_eq!(app.duration, 600);
    app.edit_duration(TimerMode::Break);
    assert_eq!(app.duration, 60);
    assert_eq!(app.edit_mode, TimerMode::Break);
    assert!(app.is_editing_duration());
}

#[test]
fn toggle_running_flips_the_flag() {
    let mut app = App::new(Settings::new(60, 5));
    app.toggle_running();
    assert!(app.running);
    app.toggle_running();
    assert!(!app.running);
}

#[test]
fn log_appends_messages_in_order() {
    let mut app = App::new(Settings::new(60, 5));
    app.log(String::from("first"));
    app.log(String::from("second"));
    assert_eq!(app.messages.len(), 2);
    assert_eq!(app.messages[0], "first");
    assert_eq!(app.messages[1], "second");
}

#[test]
fn quit_command_stops_the_loop() {
    let mut app = App::new(Settings::new(60, 5));
    let status = app.apply_command(Command::Quit);
    assert_eq!(status, Status::Quit);
    assert!(!app.running);
}

#[test]
fn adjust_commands_without_edit_session_do_nothing() {
    let mut app = App::new(Settings::new(600, 60));
    let before_focus = app.focus_time;
    let before_duration = app.duration;
    assert_eq!(app.apply_command(Command::IncreaseEditedDuration), Status::Continue);
    assert_eq!(app.apply_command(Command::DecreaseEditedDuration), Status::Continue);
    assert_eq!(app.apply_command(Command::CommitEdit), Status::Continue);
    assert_eq!(app.focus_time, before_focus);
    assert_eq!(app.duration, before_duration);
    assert!(!app.is_editing_duration());
}

#[test]
fn command_sequence_drives_a_whole_edit() {
    let mut app = App::new(Settings::new(600, 60));
    assert_eq!(app.apply_command(Command::BeginEditFocus), Status::Continue);
    assert_eq!(app.apply_command(Command::IncreaseEditedDuration), Status::Continue);
    assert_eq!(app.apply_command(Command::CommitEdit), Status::Continue);
    assert_eq!(app.focus_time, 660);
    assert!(!app.is_editing_duration());
    assert_eq!(app.apply_command(Command::Start), Status::Continue);
    assert!(app.running);
    assert_eq!(app.apply_command(Command::Reset), Status::Continue);
    assert!(!app.running);
    assert_eq!(app.time_remaining, 660);
    assert_eq!(app.apply_command(Command::SwitchMode), Status::Continue);
    assert_eq!(app.timer_mode, TimerMode::Break);
    assert_eq!(app.time_remaining, 60);
}
