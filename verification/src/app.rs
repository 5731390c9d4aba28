//! The timer state machine: durations, countdown progress, mode switching
//! and the edit sub-state, together with the command dispatcher that the
//! surrounding program drives with input tokens and tick signals.

use vstd::prelude::*;

use crate::settings::Settings;

verus! {

/// Step size (in seconds) by which an edited duration moves, and the base
/// unit of the duration bounds.
pub const FACTOR: u64 = 60;

/// Upper bound (seconds) for the focus duration: one hour.
pub const MAX_FOCUS_DURATION: u64 = FACTOR * 60;

/// Lower bound (seconds) for the focus duration: one minute.
pub const MIN_FOCUS_DURATION: u64 = FACTOR;

/// Upper bound (seconds) for the break duration: one hour.
pub const MAX_BREAK_DURATION: u64 = FACTOR * 60;

/// Lower bound (seconds) for the break duration: one minute.
pub const MIN_BREAK_DURATION: u64 = FACTOR;

/// Number of ticks in one modeled second: the countdown advances five times
/// per second so the progress gauge moves smoothly.
pub const TICKS_PER_SECOND: u64 = 5;

/// Which cycle a countdown belongs to.
#[derive(PartialEq, Eq, Structural, Clone, Copy, Debug)]
pub enum TimerMode {
    Focus,
    Break,
}

/// Which set of key bindings the interface currently offers: the ordinary
/// timer controls, or the extra bindings available while editing a duration.
#[derive(PartialEq, Eq, Structural, Clone, Copy, Debug)]
pub enum KeybindMode {
    TimerControl,
    Editing,
}

/// The largest stored duration (seconds) allowed for a mode.
pub open spec fn spec_max_for(m: TimerMode) -> u64 {
    match m {
        TimerMode::Focus => MAX_FOCUS_DURATION,
        TimerMode::Break => MAX_BREAK_DURATION,
    }
}

/// The smallest stored duration (seconds) allowed for a mode.
pub open spec fn spec_min_for(m: TimerMode) -> u64 {
    match m {
        TimerMode::Focus => MIN_FOCUS_DURATION,
        TimerMode::Break => MIN_BREAK_DURATION,
    }
}

/// The mode a completed countdown hands over to.
pub open spec fn spec_other_mode(m: TimerMode) -> TimerMode {
    match m {
        TimerMode::Focus => TimerMode::Break,
        TimerMode::Break => TimerMode::Focus,
    }
}

/// A semantic input token, already stripped of its physical key. The
/// adjust and commit tokens act only while an edit session is open;
/// otherwise they are ignored.
#[derive(PartialEq, Eq, Structural, Clone, Copy, Debug)]
pub enum Command {
    Start,
    Reset,
    SwitchMode,
    BeginEditFocus,
    BeginEditBreak,
    IncreaseEditedDuration,
    DecreaseEditedDuration,
    CommitEdit,
    Quit,
}

/// What the event loop should do after a command has been applied.
#[derive(PartialEq, Eq, Structural, Clone, Copy, Debug)]
pub enum Status {
    Continue,
    Quit,
    Debug,
}

/// The whole state of the timer.
///
/// Durations are plain integers in seconds; the countdown itself runs in
/// ticks ([`TICKS_PER_SECOND`] per second). `current_max` remembers the
/// duration the countdown was last armed with, so that progress can be
/// displayed as `ticks_remaining` out of `current_max * TICKS_PER_SECOND`.
pub struct App {
    /// Duration (seconds) the countdown was last armed with; the
    /// denominator of the progress ratio.
    pub current_max: u64,
    /// Stored focus duration in seconds.
    pub focus_time: u64,
    /// Stored break duration in seconds.
    pub break_time: u64,
    /// Whole seconds left in the current countdown.
    pub time_remaining: u64,
    /// Ticks left in the current countdown.
    pub ticks_remaining: u64,
    /// The cycle currently counting down.
    pub timer_mode: TimerMode,
    /// The mode whose duration an edit session targets.
    pub edit_mode: TimerMode,
    /// Which key bindings the interface currently offers.
    pub keybind_mode: KeybindMode,
    /// Whether ticks advance the countdown.
    pub running: bool,
    /// An edit session targeting the focus duration is open.
    pub editing_focus: bool,
    /// An edit session targeting the break duration is open.
    pub editing_break: bool,
    /// The proposed duration (seconds) of the open edit session.
    pub duration: u64,
    /// Log lines accumulated for display (for example a configuration
    /// load diagnostic).
    pub messages: Vec<String>,
}

impl App {
    /// Well-formedness: the invariant every operation preserves.
    ///
    /// Durations stay below their upper bounds (so tick arithmetic cannot
    /// overflow), the countdown never exceeds the duration it was armed
    /// with, the displayed seconds agree with the tick count, and at most
    /// one edit session is open, consistently flagged.
    pub open spec fn wf(self) -> bool {
        &&& self.focus_time <= MAX_FOCUS_DURATION
        &&& self.break_time <= MAX_BREAK_DURATION
        &&& self.duration <= spec_max_for(self.edit_mode)
        &&& self.current_max <= MAX_FOCUS_DURATION
        &&& self.ticks_remaining <= self.current_max * TICKS_PER_SECOND
        &&& self.time_remaining == self.ticks_remaining / TICKS_PER_SECOND
        &&& !(self.editing_focus && self.editing_break)
        &&& (self.editing_focus ==> self.edit_mode == TimerMode::Focus)
        &&& (self.editing_break ==> self.edit_mode == TimerMode::Break)
        &&& ((self.keybind_mode == KeybindMode::Editing) <==> (self.editing_focus
            || self.editing_break))
    }

    /// The stored duration (seconds) of a mode.
    pub open spec fn spec_duration_of(self, m: TimerMode) -> u64 {
        match m {
            TimerMode::Focus => self.focus_time,
            TimerMode::Break => self.break_time,
        }
    }

    /// An edit session is open.
    pub open spec fn spec_is_editing(self) -> bool {
        self.editing_focus || self.editing_break
    }

    /// Build the initial timer state from loaded settings.
    ///
    /// Stored durations are taken from the settings, capped at their upper
    /// bounds so that tick arithmetic stays within machine range; the
    /// countdown starts disarmed (`ticks_remaining == 0`) and stopped.
    pub fn new(settings: Settings) -> (app: App)
        ensures
            app.wf(),
            app.focus_time == if settings.focus_time <= MAX_FOCUS_DURATION {
                settings.focus_time
            } else {
                MAX_FOCUS_DURATION
            },
            app.break_time == if settings.break_time <= MAX_BREAK_DURATION {
                settings.break_time
            } else {
                MAX_BREAK_DURATION
            },
            app.current_max == 60,
            app.time_remaining == 0,
            app.ticks_remaining == 0,
            app.timer_mode == TimerMode::Focus,
            app.edit_mode == TimerMode::Focus,
            app.keybind_mode == KeybindMode::TimerControl,
            !app.running,
            !app.editing_focus,
            !app.editing_break,
            app.duration == 30,
            app.messages@ == Seq::<String>::empty(),
    {
        let focus_time = if settings.focus_time <= MAX_FOCUS_DURATION {
            settings.focus_time
        } else {
            MAX_FOCUS_DURATION
        };
        let break_time = if settings.break_time <= MAX_BREAK_DURATION {
            settings.break_time
        } else {
            MAX_BREAK_DURATION
        };
        App {
            current_max: 60,
            focus_time,
            break_time,
            time_remaining: 0,
            ticks_remaining: 0,
            timer_mode: TimerMode::Focus,
            edit_mode: TimerMode::Focus,
            keybind_mode: KeybindMode::TimerControl,
            running: false,
            editing_break: false,
            editing_focus: false,
            duration: 30,
            messages: Vec::new(),
        }
    }

    /// Let ticks advance the countdown; nothing else changes.
    pub fn start_timer(&mut self)
        ensures
            *final(self) == (App { running: true, ..*old(self) }),
    {
        self.running = true;
    }

    /// Flip the running flag; nothing else changes.
    pub fn toggle_running(&mut self)
        ensures
            *final(self) == (App { running: !old(self).running, ..*old(self) }),
    {
        self.running = !self.running;
    }

    /// Whether an edit session is open.
    pub fn is_editing_duration(&mut self) -> (editing: bool)
        ensures
            *final(self) == *old(self),
            editing == old(self).spec_is_editing(),
    {
        self.editing_break || self.editing_focus
    }

    /// Arming the countdown: the active mode's stored duration becomes the
    /// target, with the tick count and displayed seconds set to match.
    pub open spec fn spec_refill(self) -> App {
        let d = self.spec_duration_of(self.timer_mode);
        App {
            current_max: d,
            time_remaining: d,
            ticks_remaining: (d * TICKS_PER_SECOND) as u64,
            ..self
        }
    }

    /// Resetting: stop the countdown, then re-arm it for the active mode.
    pub open spec fn spec_reset(self) -> App {
        (App { running: false, ..self }).spec_refill()
    }

    /// Switching: the other mode becomes active, re-armed to its stored
    /// duration; the running flag is untouched.
    pub open spec fn spec_switch(self) -> App {
        (App { timer_mode: spec_other_mode(self.timer_mode), ..self }).spec_refill()
    }

    /// One tick: nothing happens while stopped; a countdown that has run
    /// out switches mode (and keeps running); otherwise one tick is spent
    /// and the displayed seconds follow.
    pub open spec fn spec_update(self) -> App {
        if !self.running {
            self
        } else if self.ticks_remaining == 0 {
            self.spec_switch()
        } else {
            App {
                ticks_remaining: (self.ticks_remaining - 1) as u64,
                time_remaining: (((self.ticks_remaining - 1) as u64)
                    / TICKS_PER_SECOND) as u64,
                ..self
            }
        }
    }

    /// Opening an edit session: the target mode's stored duration becomes
    /// the proposal, and the editing key bindings take over. Opening while
    /// a session is already open simply retargets it.
    pub open spec fn spec_begin_edit(self, mode: TimerMode) -> App {
        App {
            editing_focus: mode == TimerMode::Focus,
            editing_break: mode == TimerMode::Break,
            edit_mode: mode,
            duration: self.spec_duration_of(mode),
            keybind_mode: KeybindMode::Editing,
            ..self
        }
    }

    /// One upward step of an edited duration: up by [`FACTOR`] seconds,
    /// snapping to the mode's upper bound instead of overshooting it.
    pub open spec fn spec_increase_value(d: u64, mode: TimerMode) -> u64 {
        if d + FACTOR >= spec_max_for(mode) {
            spec_max_for(mode)
        } else {
            (d + FACTOR) as u64
        }
    }

    /// One downward step of an edited duration: down by [`FACTOR`] seconds,
    /// snapping to the mode's lower bound instead of undershooting it.
    pub open spec fn spec_decrease_value(d: u64, mode: TimerMode) -> u64 {
        if d <= spec_min_for(mode) + FACTOR {
            spec_min_for(mode)
        } else {
            (d - FACTOR) as u64
        }
    }

    /// Committing an edit session: the proposal becomes the stored duration
    /// of the edited mode and the session closes. If the edited mode is the
    /// active one and the timer is not running, the countdown is re-armed
    /// at once so the display reflects the new duration.
    pub open spec fn spec_commit(self) -> App {
        let committed = App {
            focus_time: if self.edit_mode == TimerMode::Focus {
                self.duration
            } else {
                self.focus_time
            },
            break_time: if self.edit_mode == TimerMode::Break {
                self.duration
            } else {
                self.break_time
            },
            editing_focus: false,
            editing_break: false,
            keybind_mode: KeybindMode::TimerControl,
            ..self
        };
        if !self.running && self.edit_mode == self.timer_mode {
            committed.spec_refill()
        } else {
            committed
        }
    }

    /// Open (or retarget) an edit session for `mode`: its stored duration
    /// becomes the proposed value.
    pub fn edit_duration(&mut self, mode: TimerMode)
        requires
            old(self).wf(),
        ensures
            final(self).wf(),
            *final(self) == old(self).spec_begin_edit(mode),
            final(self).spec_is_editing(),
            final(self).duration == old(self).spec_duration_of(mode),
    {
        match mode {
            TimerMode::Break => {
                self.editing_break = true;
                self.editing_focus = false;
                self.edit_mode = TimerMode::Break;
                self.duration = self.break_time;
            },
            TimerMode::Focus => {
                self.editing_focus = true;
                self.editing_break = false;
                self.edit_mode = TimerMode::Focus;
                self.duration = self.focus_time;
            },
        }
        self.keybind_mode = KeybindMode::Editing;
    }

    /// Move the proposed duration one step up, clamped to the edited
    /// mode's upper bound.
    pub fn increase_duration(&mut self)
        requires
            old(self).wf(),
            old(self).spec_is_editing(),
        ensures
            final(self).wf(),
            *final(self) == (App {
                duration: App::spec_increase_value(old(self).duration, old(self).edit_mode),
                ..*old(self)
            }),
            spec_min_for(old(self).edit_mode) <= final(self).duration <= spec_max_for(
                old(self).edit_mode,
            ),
    {
        let increase_amount = FACTOR;
        match self.edit_mode {
            TimerMode::Break => {
                if self.duration + increase_amount >= MAX_BREAK_DURATION {
                    self.duration = MAX_BREAK_DURATION;
                    return ;
                }
            },
            TimerMode::Focus => {
                if self.duration + increase_amount >= MAX_FOCUS_DURATION {
                    self.duration = MAX_FOCUS_DURATION;
                    return ;
                }
            },
        }
        self.duration = self.duration + increase_amount;
    }

    /// Move the proposed duration one step down, clamped to the edited
    /// mode's lower bound.
    pub fn decrease_duration(&mut self)
        requires
            old(self).wf(),
            old(self).spec_is_editing(),
        ensures
            final(self).wf(),
            *final(self) == (App {
                duration: App::spec_decrease_value(old(self).duration, old(self).edit_mode),
                ..*old(self)
            }),
            spec_min_for(old(self).edit_mode) <= final(self).duration <= spec_max_for(
                old(self).edit_mode,
            ),
    {
        match self.edit_mode {
            TimerMode::Break => {
                if self.duration <= MIN_BREAK_DURATION + FACTOR {
                    self.duration = MIN_BREAK_DURATION;
                    return ;
                }
            },
            TimerMode::Focus => {
                if self.duration <= MIN_FOCUS_DURATION + FACTOR {
                    self.duration = MIN_FOCUS_DURATION;
                    return ;
                }
            },
        }
        self.duration = self.duration - FACTOR;
    }

    /// Commit the open edit session: write the proposal into the edited
    /// mode's stored duration and close the session. When the edited mode
    /// is active and the timer is stopped, the countdown is re-armed to the
    /// new duration at once; in every other case the countdown fields are
    /// untouched.
    pub fn set_duration(&mut self)
        requires
            old(self).wf(),
            old(self).spec_is_editing(),
        ensures
            final(self).wf(),
            *final(self) == old(self).spec_commit(),
            !final(self).spec_is_editing(),
            old(self).edit_mode != old(self).timer_mode ==> {
                &&& final(self).current_max == old(self).current_max
                &&& final(self).ticks_remaining == old(self).ticks_remaining
                &&& final(self).time_remaining == old(self).time_remaining
            },
            !old(self).running && old(self).edit_mode == old(self).timer_mode ==> {
                &&& final(self).current_max == old(self).duration
                &&& final(self).ticks_remaining == old(self).duration * TICKS_PER_SECOND
                &&& final(self).time_remaining == old(self).duration
            },
    {
        match self.edit_mode {
            TimerMode::Break => {
                self.break_time = self.duration;
            },
            TimerMode::Focus => {
                self.focus_time = self.duration;
            },
        }
        self.editing_break = false;
        self.editing_focus = false;
        self.keybind_mode = KeybindMode::TimerControl;
        if !self.running && (self.edit_mode == self.timer_mode) {
            self.refill_timer();
        }
    }

    /// Re-arm the countdown for the active mode without touching the
    /// running flag.
    pub fn refill_timer(&mut self)
        requires
            old(self).wf(),
        ensures
            final(self).wf(),
            *final(self) == old(self).spec_refill(),
    {
        self.time_remaining = match self.timer_mode {
            TimerMode::Break => {
                self.current_max = self.break_time;
                self.break_time
            },
            TimerMode::Focus => {
                self.current_max = self.focus_time;
                self.focus_time
            },
        };
        self.ticks_remaining = self.time_remaining * TICKS_PER_SECOND;
    }

    /// Stop the countdown and re-arm it for the active mode: afterwards the
    /// displayed seconds equal that mode's stored duration and the timer is
    /// not running.
    pub fn reset_duration(&mut self)
        requires
            old(self).wf(),
        ensures
            final(self).wf(),
            *final(self) == old(self).spec_reset(),
            !final(self).running,
            final(self).time_remaining == old(self).spec_duration_of(
                old(self).timer_mode,
            ),
            final(self).current_max == old(self).spec_duration_of(old(self).timer_mode),
            final(self).ticks_remaining == old(self).spec_duration_of(
                old(self).timer_mode,
            ) * TICKS_PER_SECOND,
    {
        self.running = false;
        self.refill_timer();
    }

    /// Make the other mode active and re-arm the countdown to its stored
    /// duration; whether the timer is running does not change.
    pub fn switch_timer_mode(&mut self)
        requires
            old(self).wf(),
        ensures
            final(self).wf(),
            *final(self) == old(self).spec_switch(),
            final(self).timer_mode == spec_other_mode(old(self).timer_mode),
            final(self).running == old(self).running,
    {
        match self.timer_mode {
            TimerMode::Break => {
                self.timer_mode = TimerMode::Focus;
            },
            TimerMode::Focus => {
                self.timer_mode = TimerMode::Break;
            },
        }
        self.refill_timer();
    }

    /// Apply one tick. While stopped this is a no-op; a running countdown
    /// that has run out switches to the other mode and keeps running;
    /// otherwise one tick is spent.
    pub fn update(&mut self)
        requires
            old(self).wf(),
        ensures
            final(self).wf(),
            *final(self) == old(self).spec_update(),
    {
        if self.running {
            if self.ticks_remaining == 0 {
                self.switch_timer_mode();
                return ;
            }
            self.ticks_remaining = self.ticks_remaining - 1;
            self.time_remaining = self.ticks_remaining / TICKS_PER_SECOND;
        }
    }

    /// The state after one command. Adjusting or committing without an
    /// open edit session changes nothing, and `Quit` only tells the event
    /// loop to stop.
    pub open spec fn spec_apply(self, cmd: Command) -> App {
        match cmd {
            Command::Start => App { running: true, ..self },
            Command::Reset => self.spec_reset(),
            Command::SwitchMode => self.spec_switch(),
            Command::BeginEditFocus => self.spec_begin_edit(TimerMode::Focus),
            Command::BeginEditBreak => self.spec_begin_edit(TimerMode::Break),
            Command::IncreaseEditedDuration => if self.spec_is_editing() {
                App {
                    duration: App::spec_increase_value(self.duration, self.edit_mode),
                    ..self
                }
            } else {
                self
            },
            Command::DecreaseEditedDuration => if self.spec_is_editing() {
                App {
                    duration: App::spec_decrease_value(self.duration, self.edit_mode),
                    ..self
                }
            } else {
                self
            },
            Command::CommitEdit => if self.spec_is_editing() {
                self.spec_commit()
            } else {
                self
            },
            Command::Quit => self,
        }
    }

    /// Apply one semantic input token, and say whether the event loop
    /// should keep going.
    pub fn apply_command(&mut self, cmd: Command) -> (status: Status)
        requires
            old(self).wf(),
        ensures
            final(self).wf(),
            *final(self) == old(self).spec_apply(cmd),
            status == (if cmd == Command::Quit {
                Status::Quit
            } else {
                Status::Continue
            }),
    {
        match cmd {
            Command::Start => self.start_timer(),
            Command::Reset => self.reset_duration(),
            Command::SwitchMode => self.switch_timer_mode(),
            Command::BeginEditFocus => self.edit_duration(TimerMode::Focus),
            Command::BeginEditBreak => self.edit_duration(TimerMode::Break),
            Command::IncreaseEditedDuration => {
                if self.is_editing_duration() {
                    self.increase_duration();
                }
            },
            Command::DecreaseEditedDuration => {
                if self.is_editing_duration() {
                    self.decrease_duration();
                }
            },
            Command::CommitEdit => {
                if self.is_editing_duration() {
                    self.set_duration();
                }
            },
            Command::Quit => {
                return Status::Quit;
            },
        }
        Status::Continue
    }

    /// The state after `n` ticks.
    pub open spec fn spec_update_n(self, n: nat) -> App
        decreases n,
    {
        if n == 0 {
            self
        } else {
            self.spec_update_n((n - 1) as nat).spec_update()
        }
    }

    /// Render the current stored durations as the settings text document;
    /// the surrounding program persists it after a committed edit (and, on
    /// a write failure, reports the failure through [`App::log`] — the
    /// in-memory durations are kept either way).
    pub fn update_settings(&self) -> (out: String)
        ensures
            out@ == crate::settings::spec_serialize(Settings {
                focus_time: self.focus_time,
                break_time: self.break_time,
            }),
    {
        let settings = Settings::new(self.focus_time, self.break_time);
        Settings::save_settings(settings)
    }

    /// Append a line to the displayed log.
    pub fn log(&mut self, message: String)
        ensures
            *final(self) == (App { messages: final(self).messages, ..*old(self) }),
            final(self).messages@ == old(self).messages@.push(message),
    {
        self.messages.push(message);
    }
}

/// Law: away from the upper bound, one step up followed by one step down
/// brings an in-range duration back to itself. (Close under the upper
/// bound the upward step snaps to the bound, so the pair lands on
/// `max - FACTOR` instead; see [`lemma_adjust_at_bounds`] for the bounds
/// themselves.)
pub proof fn lemma_adjust_round_trip(d: u64, mode: TimerMode)
    requires
        spec_min_for(mode) <= d,
        d + FACTOR <= spec_max_for(mode),
    ensures
        App::spec_decrease_value(App::spec_increase_value(d, mode), mode) == d,
{
}

/// Law: at the bounds the clamped direction is a no-op — stepping up from
/// the upper bound and stepping down from the lower bound both leave the
/// duration where it is, so repeated steps at a bound are idempotent.
pub proof fn lemma_adjust_at_bounds(mode: TimerMode)
    ensures
        App::spec_increase_value(spec_max_for(mode), mode) == spec_max_for(mode),
        App::spec_decrease_value(spec_min_for(mode), mode) == spec_min_for(mode),
{
}

/// Law: the progress fraction `ticks_remaining / (current_max *
/// TICKS_PER_SECOND)` of a well-formed state never exceeds one — its
/// numerator is bounded by its denominator — and once no ticks remain the
/// displayed seconds are zero, so the rendered gauge sits in `[0, 1]` and
/// shows empty exactly when the countdown has run out.
pub proof fn lemma_ratio_bounds(app: App)
    requires
        app.wf(),
    ensures
        app.ticks_remaining <= app.current_max * TICKS_PER_SECOND,
        app.ticks_remaining == 0 ==> app.time_remaining == 0,
{
}

/// While running, each of the first `k` ticks spends exactly one remaining
/// tick and changes nothing else.
proof fn lemma_update_n_counts_down(app: App, k: nat)
    requires
        app.wf(),
        app.running,
        k <= app.ticks_remaining,
    ensures
        app.spec_update_n(k) == (App {
            ticks_remaining: (app.ticks_remaining - k) as u64,
            time_remaining: (((app.ticks_remaining - k) as u64) / TICKS_PER_SECOND) as u64,
            ..app
        }),
    decreases k,
{
    if k == 0 {
        assert(app.spec_update_n(0) == app);
    } else {
        lemma_update_n_counts_down(app, (k - 1) as nat);
    }
}

/// Law: a running countdown with `t` ticks remaining reaches zero after
/// exactly `t` ticks — mode, target and running flag untouched — and the
/// very next tick flips the active mode, re-arms the countdown to the
/// other mode's stored duration, and keeps the timer running.
pub proof fn lemma_countdown_completes(app: App)
    requires
        app.wf(),
        app.running,
    ensures
        app.spec_update_n(app.ticks_remaining as nat) == (App {
            ticks_remaining: 0,
            time_remaining: 0,
            ..app
        }),
        app.spec_update_n((app.ticks_remaining + 1) as nat).timer_mode == spec_other_mode(
            app.timer_mode,
        ),
        app.spec_update_n((app.ticks_remaining + 1) as nat).running,
        app.spec_update_n((app.ticks_remaining + 1) as nat).time_remaining
            == app.spec_duration_of(spec_other_mode(app.timer_mode)),
        app.spec_update_n((app.ticks_remaining + 1) as nat).current_max
            == app.spec_duration_of(spec_other_mode(app.timer_mode)),
        app.spec_update_n((app.ticks_remaining + 1) as nat).ticks_remaining
            == app.spec_duration_of(spec_other_mode(app.timer_mode)) * TICKS_PER_SECOND,
{
    lemma_update_n_counts_down(app, app.ticks_remaining as nat);
    let done = app.spec_update_n(app.ticks_remaining as nat);
    assert(app.spec_update_n((app.ticks_remaining + 1) as nat) == done.spec_update());
}

} // verus!
