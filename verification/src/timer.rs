//! The timer engine: which phase is active, whether it is counting, how much
//! time each phase has left, and what happens when a phase runs out.

use vstd::prelude::*;
use vstd::string::*;
use crate::duration::{clock_text, Duration};

verus! {

/// The half of the work/break cycle that is active.
#[derive(Clone, Copy, Debug, PartialEq, Eq, Structural)]
pub enum PomodoroState {
    Work,
    Break,
}

/// Whether the active phase is counting down.
#[derive(Clone, Copy, Debug, PartialEq, Eq, Structural)]
pub enum RunState {
    Running,
    Paused,
}

/// The timer as the contracts see it: every duration as its total number of
/// seconds, the sound path as its characters.
pub struct PomodoroView {
    pub phase: PomodoroState,
    pub run_state: RunState,
    pub work_duration: nat,
    pub break_duration: nat,
    pub work_remaining: nat,
    pub break_remaining: nat,
    pub auto_start: bool,
    pub sound_path: Seq<char>,
    pub no_sound: bool,
}

impl PomodoroView {
    /// A fresh timer: at the start of a paused work phase, with both
    /// countdowns at their targets and automatic restart switched off.
    pub open spec fn initial(
        work: nat,
        rest: nat,
        sound_path: Seq<char>,
        no_sound: bool,
    ) -> PomodoroView {
        PomodoroView {
            phase: PomodoroState::Work,
            run_state: RunState::Paused,
            work_duration: work,
            break_duration: rest,
            work_remaining: work,
            break_remaining: rest,
            auto_start: false,
            sound_path,
            no_sound,
        }
    }

    /// Neither countdown is above its configured target.
    pub open spec fn within_targets(self) -> bool {
        &&& self.work_remaining <= self.work_duration
        &&& self.break_remaining <= self.break_duration
    }

    /// The break countdown is not above its configured target. Every
    /// operation keeps this; only a work extension may lift the work
    /// countdown above its own target.
    pub open spec fn break_within_target(self) -> bool {
        self.break_remaining <= self.break_duration
    }

    /// The time left in the active phase.
    pub open spec fn active_remaining(self) -> nat {
        match self.phase {
            PomodoroState::Work => self.work_remaining,
            PomodoroState::Break => self.break_remaining,
        }
    }

    /// Running becomes paused and paused becomes running; nothing else moves.
    pub open spec fn start_or_pause(self) -> PomodoroView {
        PomodoroView {
            run_state: match self.run_state {
                RunState::Running => RunState::Paused,
                RunState::Paused => RunState::Running,
            },
            ..self
        }
    }

    /// Both countdowns go back to their targets and the timer pauses; the
    /// phase stays.
    pub open spec fn reset(self) -> PomodoroView {
        PomodoroView {
            run_state: RunState::Paused,
            work_remaining: self.work_duration,
            break_remaining: self.break_duration,
            ..self
        }
    }

    /// Whether the active countdown stands at zero after one more second
    /// has been taken from it.
    pub open spec fn tick_reaches_zero(self) -> bool {
        self.active_remaining() <= 1
    }

    /// Whether the next tick ends a work session: the timer is running a
    /// work phase whose countdown that tick brings to zero.
    pub open spec fn tick_ends_work(self) -> bool {
        &&& self.run_state == RunState::Running
        &&& self.phase == PomodoroState::Work
        &&& self.tick_reaches_zero()
    }

    /// Whether the next tick ends a break: the timer is running a break
    /// whose countdown that tick brings to zero.
    pub open spec fn tick_ends_break(self) -> bool {
        &&& self.run_state == RunState::Running
        &&& self.phase == PomodoroState::Break
        &&& self.tick_reaches_zero()
    }

    /// The timer one tick later.
    ///
    /// A paused timer does not move. A running one loses a second from the
    /// active countdown. A work phase that reaches zero hands over to a
    /// paused break, whose countdown is left as it was. A break that reaches
    /// zero hands over to a work phase with both countdowns back at their
    /// targets, running if automatic restart is on and paused otherwise.
    pub open spec fn tick(self) -> PomodoroView {
        if self.run_state == RunState::Paused {
            self
        } else if self.tick_ends_work() {
            PomodoroView {
                phase: PomodoroState::Break,
                run_state: RunState::Paused,
                work_remaining: 0,
                ..self
            }
        } else if self.tick_ends_break() {
            PomodoroView {
                phase: PomodoroState::Work,
                run_state: if self.auto_start {
                    RunState::Running
                } else {
                    RunState::Paused
                },
                work_remaining: self.work_duration,
                break_remaining: self.break_duration,
                ..self
            }
        } else {
            match self.phase {
                PomodoroState::Work => PomodoroView {
                    work_remaining: (self.work_remaining - 1) as nat,
                    ..self
                },
                PomodoroState::Break => PomodoroView {
                    break_remaining: (self.break_remaining - 1) as nat,
                    ..self
                },
            }
        }
    }

    /// The automatic restart flag flips; nothing else moves.
    pub open spec fn toggle_auto_start(self) -> PomodoroView {
        PomodoroView { auto_start: !self.auto_start, ..self }
    }

    /// The work target becomes `minutes` whole minutes and the work
    /// countdown starts over from it.
    pub open spec fn set_work_duration(self, minutes: nat) -> PomodoroView {
        PomodoroView { work_duration: minutes * 60, work_remaining: minutes * 60, ..self }
    }

    /// The break target becomes `minutes` whole minutes and the break
    /// countdown starts over from it.
    pub open spec fn set_break_duration(self, minutes: nat) -> PomodoroView {
        PomodoroView { break_duration: minutes * 60, break_remaining: minutes * 60, ..self }
    }

    /// Work resumes at once with `minutes` whole minutes on the work
    /// countdown, in place of whatever was left; the target stays.
    pub open spec fn extend_work_session(self, minutes: nat) -> PomodoroView {
        PomodoroView {
            phase: PomodoroState::Work,
            run_state: RunState::Running,
            work_remaining: minutes * 60,
            ..self
        }
    }

    /// The notification sound becomes `path`; nothing else moves.
    pub open spec fn set_sound(self, path: Seq<char>) -> PomodoroView {
        PomodoroView { sound_path: path, ..self }
    }
}

/// The Pomodoro timer.
#[derive(Debug)]
pub struct Pomodoro {
    pub phase: PomodoroState,
    pub run_state: RunState,
    pub work_duration: Duration,
    pub break_duration: Duration,
    pub work_remaining: Duration,
    pub break_remaining: Duration,
    pub auto_start: bool,
    pub sound_path: String,
    pub no_sound: bool,
}

impl View for Pomodoro {
    type V = PomodoroView;

    open spec fn view(&self) -> PomodoroView {
        PomodoroView {
            phase: self.phase,
            run_state: self.run_state,
            work_duration: self.work_duration@,
            break_duration: self.break_duration@,
            work_remaining: self.work_remaining@,
            break_remaining: self.break_remaining@,
            auto_start: self.auto_start,
            sound_path: self.sound_path@,
            no_sound: self.no_sound,
        }
    }
}

impl Pomodoro {
    /// Every duration of the timer is a proper minutes and seconds pair, so
    /// that the view fixes each of them.
    pub open spec fn wf(self) -> bool {
        &&& self.work_duration.wf()
        &&& self.break_duration.wf()
        &&& self.work_remaining.wf()
        &&& self.break_remaining.wf()
    }

    /// A fresh timer with the given work and break targets, each a pair of
    /// minutes and seconds.
    pub fn new(work: (u64, u64), rest: (u64, u64), sound: String, no_sound: bool) -> (p: Pomodoro)
        ensures
            p@ == PomodoroView::initial(
                (work.0 * 60 + work.1) as nat,
                (rest.0 * 60 + rest.1) as nat,
                sound@,
                no_sound,
            ),
            p.work_duration == (Duration { minutes: work.0, seconds: work.1 }),
            p.break_duration == (Duration { minutes: rest.0, seconds: rest.1 }),
            p.work_remaining == p.work_duration,
            p.break_remaining == p.break_duration,
            p.wf() <==> work.1 < 60 && rest.1 < 60,
    {
        let work_duration = Duration::new(work.0, work.1);
        let break_duration = Duration::new(rest.0, rest.1);
        Pomodoro {
            phase: PomodoroState::Work,
            run_state: RunState::Paused,
            work_duration,
            break_duration,
            work_remaining: work_duration,
            break_remaining: break_duration,
            auto_start: false,
            sound_path: sound,
            no_sound,
        }
    }

    /// Starts a paused timer and pauses a running one.
    pub fn start_or_pause(&mut self)
        ensures
            final(self)@ == old(self)@.start_or_pause(),
            final(self).work_duration == old(self).work_duration,
            final(self).break_duration == old(self).break_duration,
            final(self).work_remaining == old(self).work_remaining,
            final(self).break_remaining == old(self).break_remaining,
            old(self).wf() ==> final(self).wf(),
    {
        self.run_state = match self.run_state {
            RunState::Running => RunState::Paused,
            RunState::Paused => RunState::Running,
        };
    }

    /// Puts both countdowns back to their targets and pauses.
    pub fn reset(&mut self)
        ensures
            final(self)@ == old(self)@.reset(),
            final(self).work_duration == old(self).work_duration,
            final(self).break_duration == old(self).break_duration,
            final(self).work_remaining == old(self).work_duration,
            final(self).break_remaining == old(self).break_duration,
            old(self).wf() ==> final(self).wf(),
    {
        self.work_remaining = self.work_duration;
        self.break_remaining = self.break_duration;
        self.run_state = RunState::Paused;
    }

    /// Advances the timer by one tick and tells whether that tick ended a
    /// work session.
    pub fn check_and_switch(&mut self) -> (work_ended: bool)
        ensures
            final(self)@ == old(self)@.tick(),
            work_ended == old(self)@.tick_ends_work(),
            final(self).work_duration == old(self).work_duration,
            final(self).break_duration == old(self).break_duration,
            old(self).wf() ==> final(self).wf(),
    {
        match self.run_state {
            RunState::Paused => false,
            RunState::Running => match self.phase {
                PomodoroState::Work => {
                    self.work_remaining = self.work_remaining.tick_down();
                    if self.work_remaining.is_zero() {
                        self.phase = PomodoroState::Break;
                        self.run_state = RunState::Paused;
                        true
                    } else {
                        false
                    }
                },
                PomodoroState::Break => {
                    self.break_remaining = self.break_remaining.tick_down();
                    if self.break_remaining.is_zero() {
                        self.phase = PomodoroState::Work;
                        self.work_remaining = self.work_duration;
                        self.break_remaining = self.break_duration;
                        self.run_state = if self.auto_start {
                            RunState::Running
                        } else {
                            RunState::Paused
                        };
                    }
                    false
                },
            },
        }
    }

    /// Flips the automatic restart flag.
    pub fn toggle_auto_start(&mut self)
        ensures
            final(self)@ == old(self)@.toggle_auto_start(),
            final(self).work_duration == old(self).work_duration,
            final(self).break_duration == old(self).break_duration,
            final(self).work_remaining == old(self).work_remaining,
            final(self).break_remaining == old(self).break_remaining,
            old(self).wf() ==> final(self).wf(),
    {
        self.auto_start = !self.auto_start;
    }

    /// Sets the work target to `minutes` whole minutes and restarts the work
    /// countdown from it.
    pub fn set_work_duration(&mut self, minutes: u64)
        ensures
            final(self)@ == old(self)@.set_work_duration(minutes as nat),
            final(self).work_duration == Duration::of_minutes(minutes),
            final(self).work_remaining == Duration::of_minutes(minutes),
            final(self).break_duration == old(self).break_duration,
            final(self).break_remaining == old(self).break_remaining,
            old(self).wf() ==> final(self).wf(),
    {
        self.work_duration = Duration::from_minutes(minutes);
        self.work_remaining = self.work_duration;
    }

    /// Sets the break target to `minutes` whole minutes and restarts the
    /// break countdown from it.
    pub fn set_break_duration(&mut self, minutes: u64)
        ensures
            final(self)@ == old(self)@.set_break_duration(minutes as nat),
            final(self).break_duration == Duration::of_minutes(minutes),
            final(self).break_remaining == Duration::of_minutes(minutes),
            final(self).work_duration == old(self).work_duration,
            final(self).work_remaining == old(self).work_remaining,
            old(self).wf() ==> final(self).wf(),
    {
        self.break_duration = Duration::from_minutes(minutes);
        self.break_remaining = self.break_duration;
    }

    /// Goes back to work for `minutes` more minutes, running at once.
    pub fn extend_work_session(&mut self, minutes: u64)
        ensures
            final(self)@ == old(self)@.extend_work_session(minutes as nat),
            final(self).work_remaining == Duration::of_minutes(minutes),
            final(self).work_duration == old(self).work_duration,
            final(self).break_duration == old(self).break_duration,
            final(self).break_remaining == old(self).break_remaining,
            old(self).wf() ==> final(self).wf(),
    {
        self.phase = PomodoroState::Work;
        self.work_remaining = Duration::from_minutes(minutes);
        self.run_state = RunState::Running;
    }

    /// Replaces the notification sound by `path`, whatever it names.
    pub fn set_sound(&mut self, path: String)
        ensures
            final(self)@ == old(self)@.set_sound(path@),
            final(self).sound_path == path,
            final(self).work_duration == old(self).work_duration,
            final(self).break_duration == old(self).break_duration,
            final(self).work_remaining == old(self).work_remaining,
            final(self).break_remaining == old(self).break_remaining,
            old(self).wf() ==> final(self).wf(),
    {
        self.sound_path = path;
    }

    /// The active phase.
    pub fn state(&self) -> (phase: PomodoroState)
        ensures
            phase == self@.phase,
    {
        self.phase
    }

    /// Whether the timer is counting down.
    pub fn is_running(&self) -> (running: bool)
        ensures
            running == (self@.run_state == RunState::Running),
    {
        match self.run_state {
            RunState::Running => true,
            RunState::Paused => false,
        }
    }

    /// Whether work resumes by itself when a break ends.
    pub fn auto_start(&self) -> (on: bool)
        ensures
            on == self@.auto_start,
    {
        self.auto_start
    }

    /// The time left to work, as the clock face `MM:SS`.
    pub fn work_time(&self) -> (s: String)
        ensures
            s@ == clock_text(self.work_remaining.minutes as nat, self.work_remaining.seconds as nat),
            self.wf() ==> s@ == clock_text(self@.work_remaining / 60, self@.work_remaining % 60),
    {
        self.work_remaining.clock()
    }

    /// The time left to rest, as the clock face `MM:SS`.
    pub fn break_time(&self) -> (s: String)
        ensures
            s@ == clock_text(
                self.break_remaining.minutes as nat,
                self.break_remaining.seconds as nat,
            ),
            self.wf() ==> s@ == clock_text(self@.break_remaining / 60, self@.break_remaining % 60),
    {
        self.break_remaining.clock()
    }
}

} // verus!
