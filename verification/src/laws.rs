//! What holds of the timer and of the overlay over whole runs, beyond the
//! contract of each single step.

use vstd::prelude::*;
use crate::controller::AppView;
use crate::event::{Event, Key};
use crate::menu::{duration_presets, item_count, last_index, MenuState};
use crate::timer::{PomodoroState, PomodoroView, RunState};

verus! {

impl PomodoroView {
    /// The timer after `n` ticks in a row.
    pub open spec fn ticks(self, n: nat) -> PomodoroView
        decreases n,
    {
        if n == 0 {
            self
        } else {
            self.ticks((n - 1) as nat).tick()
        }
    }
}

impl AppView {
    /// The dispatcher after the key presses `keys`, first to last, while
    /// the known sound files stay `sounds`.
    pub open spec fn presses(self, keys: Seq<Key>, sounds: Seq<Seq<char>>) -> AppView
        decreases keys.len(),
    {
        if keys.len() == 0 {
            self
        } else {
            self.presses(keys.drop_last(), sounds).key(keys.last(), sounds)
        }
    }

    /// The work extension screen is only ever open over a break that waits
    /// paused: the tick that ended the work session left the timer so, and
    /// nothing moves it while the screen is up.
    pub open spec fn extension_waits_on_break(self) -> bool {
        self.menu_state == MenuState::ExtendWorkSession ==> self.pomo.phase
            == PomodoroState::Break && self.pomo.run_state == RunState::Paused
    }
}

/// A paused timer ignores ticks: nothing counts down and no work session
/// ends.
pub proof fn lemma_paused_tick_is_idle(timer: PomodoroView)
    requires
        timer.run_state == RunState::Paused,
    ensures
        timer.tick() == timer,
        !timer.tick_ends_work(),
{
}

/// A tick right after a reset changes nothing, since a reset pauses: both
/// countdowns stay at their targets.
pub proof fn lemma_tick_after_reset(timer: PomodoroView)
    ensures
        timer.reset().tick() == timer.reset(),
        timer.reset().tick().work_remaining == timer.work_duration,
        timer.reset().tick().break_remaining == timer.break_duration,
{
}

/// A tick takes time only from the countdown of the active phase of a
/// running timer, as long as no countdown is above its target.
pub proof fn lemma_tick_counts_active_phase_only(timer: PomodoroView)
    requires
        timer.within_targets(),
    ensures
        timer.tick().work_remaining < timer.work_remaining ==> timer.run_state == RunState::Running
            && timer.phase == PomodoroState::Work,
        timer.tick().break_remaining < timer.break_remaining ==> timer.run_state
            == RunState::Running && timer.phase == PomodoroState::Break,
        timer.tick().work_duration == timer.work_duration,
        timer.tick().break_duration == timer.break_duration,
{
}

/// No operation but a work extension lifts a countdown above its target.
pub proof fn lemma_targets_kept(timer: PomodoroView, minutes: nat, path: Seq<char>)
    requires
        timer.within_targets(),
    ensures
        timer.start_or_pause().within_targets(),
        timer.reset().within_targets(),
        timer.tick().within_targets(),
        timer.toggle_auto_start().within_targets(),
        timer.set_work_duration(minutes).within_targets(),
        timer.set_break_duration(minutes).within_targets(),
        timer.set_sound(path).within_targets(),
        timer.extend_work_session(minutes).within_targets() <==> minutes * 60
            <= timer.work_duration,
{
}

/// The break countdown never rises above its target, whatever is done.
pub proof fn lemma_break_target_kept(timer: PomodoroView, minutes: nat, path: Seq<char>)
    requires
        timer.break_within_target(),
    ensures
        timer.start_or_pause().break_within_target(),
        timer.reset().break_within_target(),
        timer.tick().break_within_target(),
        timer.toggle_auto_start().break_within_target(),
        timer.set_work_duration(minutes).break_within_target(),
        timer.set_break_duration(minutes).break_within_target(),
        timer.extend_work_session(minutes).break_within_target(),
        timer.set_sound(path).break_within_target(),
{
}

/// A running work phase with `timer.work_remaining` seconds left counts
/// down one second per tick. None of the ticks before the last ends the
/// session; the last one does, and leaves a paused break with the work
/// countdown at zero and everything else as it was.
pub proof fn lemma_work_countdown(timer: PomodoroView, k: nat)
    requires
        timer.run_state == RunState::Running,
        timer.phase == PomodoroState::Work,
        timer.work_remaining >= 1,
        k <= timer.work_remaining,
    ensures
        k < timer.work_remaining ==> timer.ticks(k) == (PomodoroView {
            work_remaining: (timer.work_remaining - k) as nat,
            ..timer
        }),
        k < timer.work_remaining ==> (timer.ticks(k).tick_ends_work() <==> k + 1
            == timer.work_remaining),
        k == timer.work_remaining ==> timer.ticks(k) == (PomodoroView {
            phase: PomodoroState::Break,
            run_state: RunState::Paused,
            work_remaining: 0,
            ..timer
        }),
    decreases k,
{
    if k > 0 {
        lemma_work_countdown(timer, (k - 1) as nat);
    }
}

/// A running break with `timer.break_remaining` seconds left counts down
/// one second per tick. The last tick hands over to a work phase with both
/// countdowns back at their targets, which runs at once if automatic
/// restart is on and waits paused if it is off. No tick of a break reports
/// the end of a work session.
pub proof fn lemma_break_countdown(timer: PomodoroView, k: nat)
    requires
        timer.run_state == RunState::Running,
        timer.phase == PomodoroState::Break,
        timer.break_remaining >= 1,
        k <= timer.break_remaining,
    ensures
        k < timer.break_remaining ==> timer.ticks(k) == (PomodoroView {
            break_remaining: (timer.break_remaining - k) as nat,
            ..timer
        }),
        k < timer.break_remaining ==> !timer.ticks(k).tick_ends_work(),
        k == timer.break_remaining ==> timer.ticks(k) == (PomodoroView {
            phase: PomodoroState::Work,
            run_state: if timer.auto_start {
                RunState::Running
            } else {
                RunState::Paused
            },
            work_remaining: timer.work_duration,
            break_remaining: timer.break_duration,
            ..timer
        }),
    decreases k,
{
    if k > 0 {
        lemma_break_countdown(timer, (k - 1) as nat);
    }
}

/// The tick that brings a running break to zero starts the next work
/// phase: running if automatic restart is on, paused if it is off.
pub proof fn lemma_break_end(timer: PomodoroView)
    requires
        timer.tick_ends_break(),
    ensures
        timer.tick().phase == PomodoroState::Work,
        timer.auto_start ==> timer.tick().run_state == RunState::Running,
        !timer.auto_start ==> timer.tick().run_state == RunState::Paused,
        timer.tick().work_remaining == timer.work_duration,
        timer.tick().break_remaining == timer.break_duration,
        !timer.tick_ends_work(),
{
}

/// Every event leaves the selection on an entry of the open screen, as
/// long as the known sound files stay the same.
pub proof fn lemma_event_keeps_menu_valid(app: AppView, event: Event, sounds: Seq<Seq<char>>)
    requires
        app.menu_valid(sounds.len()),
    ensures
        app.event(event, sounds).menu_valid(sounds.len()),
{
}

/// At startup the overlay is closed and both countdowns stand at their
/// targets, so everything that the events keep holds from the first one on.
pub proof fn lemma_initial_state(
    work_min: nat,
    break_min: nat,
    hide_image: bool,
    sound: Seq<char>,
    no_sound: bool,
    sounds: nat,
)
    ensures
        ({
            let app = AppView::initial(work_min, break_min, hide_image, sound, no_sound);
            &&& app.menu_valid(sounds)
            &&& app.extension_waits_on_break()
            &&& app.pomo.within_targets()
            &&& !app.exit
        }),
{
}

/// No event opens the work extension screen over anything but a paused
/// break, and none moves the timer while that screen is up.
pub proof fn lemma_extension_waits_on_break(app: AppView, event: Event, sounds: Seq<Seq<char>>)
    requires
        app.extension_waits_on_break(),
    ensures
        app.event(event, sounds).extension_waits_on_break(),
{
}

/// Confirming a preset on the work extension screen resumes work at once
/// with that many minutes on the work countdown, and closes the overlay.
pub proof fn lemma_extension_resumes_work(app: AppView, sounds: Seq<Seq<char>>)
    requires
        app.menu_state == MenuState::ExtendWorkSession,
        app.menu_selection < duration_presets().len(),
    ensures
        app.key(Key::Enter, sounds).pomo.phase == PomodoroState::Work,
        app.key(Key::Enter, sounds).pomo.run_state == RunState::Running,
        app.key(Key::Enter, sounds).pomo.work_remaining == 60 * duration_presets()[app.menu_selection as int],
        app.key(Key::Enter, sounds).menu_state == MenuState::Closed,
        app.key(Key::Enter, sounds).pomo.work_duration == app.pomo.work_duration,
        app.key(Key::Enter, sounds).pomo.break_remaining == app.pomo.break_remaining,
{
}

/// Confirming the last entry of the work extension screen, or leaving the
/// screen with escape, starts the break that was waiting and closes the
/// overlay; the countdowns are not touched.
pub proof fn lemma_extension_starts_break(app: AppView, key: Key, sounds: Seq<Seq<char>>)
    requires
        app.menu_state == MenuState::ExtendWorkSession,
        app.extension_waits_on_break(),
        key == Key::Esc || (key == Key::Enter && app.menu_selection == last_index(
            MenuState::ExtendWorkSession,
            sounds.len(),
        )),
    ensures
        app.key(key, sounds).pomo == (PomodoroView { run_state: RunState::Running, ..app.pomo }),
        app.key(key, sounds).pomo.phase == PomodoroState::Break,
        app.key(key, sounds).menu_state == MenuState::Closed,
        app.key(key, sounds).exit == app.exit,
{
}

/// A tick reaches the timer whatever the overlay shows, and the tick that
/// ends a work session opens the work extension screen on its first entry,
/// in front of any other screen.
pub proof fn lemma_tick_reaches_timer(app: AppView)
    ensures
        app.tick().pomo == app.pomo.tick(),
        app.tick().exit == app.exit,
        app.pomo.tick_ends_work() ==> app.tick().menu_state == MenuState::ExtendWorkSession
            && app.tick().menu_selection == 0,
        !app.pomo.tick_ends_work() ==> app.tick().menu_state == app.menu_state
            && app.tick().menu_selection == app.menu_selection,
{
}

/// While a screen is open no key reaches the hotkeys: the user cannot
/// leave, and the keys that move the selection leave the timer alone.
pub proof fn lemma_open_menu_takes_keys(app: AppView, key: Key, sounds: Seq<Seq<char>>)
    requires
        app.menu_state != MenuState::Closed,
    ensures
        app.key(key, sounds).exit == app.exit,
        key != Key::Enter && key != Key::Esc ==> app.key(key, sounds).pomo == app.pomo
            && app.key(key, sounds).menu_state == app.menu_state,
{
}

/// The known sound files bear on an event only while the sound screen is
/// open: on every other screen, and with the overlay closed, the outcome is
/// the same whatever files are known.
pub proof fn lemma_sounds_matter_on_sound_screen_only(
    app: AppView,
    event: Event,
    sounds: Seq<Seq<char>>,
    others: Seq<Seq<char>>,
)
    requires
        app.menu_state != MenuState::SelectSound,
    ensures
        app.event(event, sounds) == app.event(event, others),
{
}

/// However often the down key is pressed on an open screen, the screen
/// stays and the selection moves down by one per press until it rests on
/// the last entry.
pub proof fn lemma_down_presses_stop_at_last(app: AppView, keys: Seq<Key>, sounds: Seq<Seq<char>>)
    requires
        app.menu_state != MenuState::Closed,
        app.menu_valid(sounds.len()),
        forall|i: int| 0 <= i < keys.len() ==> keys[i] == Key::Down,
    ensures
        app.presses(keys, sounds) == (AppView {
            menu_selection: if app.menu_selection + keys.len() <= last_index(
                app.menu_state,
                sounds.len(),
            ) {
                app.menu_selection + keys.len()
            } else {
                last_index(app.menu_state, sounds.len())
            },
            ..app
        }),
        app.presses(keys, sounds).menu_selection <= item_count(app.menu_state, sounds.len()) - 1,
    decreases keys.len(),
{
    if keys.len() > 0 {
        lemma_down_presses_stop_at_last(app, keys.drop_last(), sounds);
    }
}

/// However often the up key is pressed on an open screen, the screen stays
/// and the selection moves up by one per press until it rests on the first
/// entry.
pub proof fn lemma_up_presses_stop_at_first(app: AppView, keys: Seq<Key>, sounds: Seq<Seq<char>>)
    requires
        app.menu_state != MenuState::Closed,
        forall|i: int| 0 <= i < keys.len() ==> keys[i] == Key::Up,
    ensures
        app.presses(keys, sounds) == (AppView {
            menu_selection: if keys.len() <= app.menu_selection {
                (app.menu_selection - keys.len()) as nat
            } else {
                0
            },
            ..app
        }),
    decreases keys.len(),
{
    if keys.len() > 0 {
        lemma_up_presses_stop_at_first(app, keys.drop_last(), sounds);
    }
}

/// Leaving the sound screen with escape returns to the main screen on its
/// first entry and changes nothing else.
pub proof fn lemma_escape_from_sound_screen(app: AppView, sounds: Seq<Seq<char>>)
    requires
        app.menu_state == MenuState::SelectSound,
    ensures
        app.key(Key::Esc, sounds) == app.show(MenuState::MainMenu),
        app.key(Key::Esc, sounds).pomo == app.pomo,
{
}

/// Opening the overlay, walking down to the sound entry, entering the
/// sound screen and leaving it with escape ends on the main screen with its
/// first entry selected; the timer and its configuration are as before.
pub proof fn lemma_sound_screen_round_trip(app: AppView, sounds: Seq<Seq<char>>)
    requires
        app.menu_state == MenuState::Closed,
    ensures
        app.presses(
            seq![Key::Char('c'), Key::Down, Key::Down, Key::Down, Key::Enter, Key::Esc],
            sounds,
        ) == app.show(MenuState::MainMenu),
        app.show(MenuState::MainMenu).pomo == app.pomo,
{
    let keys = seq![Key::Char('c'), Key::Down, Key::Down, Key::Down, Key::Enter, Key::Esc];
    let opened = app.show(MenuState::MainMenu);
    assert(keys.take(0) == Seq::<Key>::empty());
    assert forall|n: int| 1 <= n <= 6 implies #[trigger] keys.take(n).drop_last() == keys.take(
        n - 1,
    ) && keys.take(n).last() == keys[n - 1] by {}
    assert(app.presses(keys.take(0), sounds) == app);
    assert(app.presses(keys.take(1), sounds) == opened);
    assert(app.presses(keys.take(2), sounds) == (AppView { menu_selection: 1, ..opened }));
    assert(app.presses(keys.take(3), sounds) == (AppView { menu_selection: 2, ..opened }));
    assert(app.presses(keys.take(4), sounds) == (AppView { menu_selection: 3, ..opened }));
    assert(app.presses(keys.take(5), sounds) == app.show(MenuState::SelectSound));
    assert(keys.take(6) == keys);
}

} // verus!
