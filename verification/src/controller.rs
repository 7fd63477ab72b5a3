//! The dispatcher: one timer, one configuration overlay, and the rules by
//! which key presses and ticks move both.

use vstd::prelude::*;
use vstd::string::*;
use crate::event::{Event, Key};
use crate::menu::{duration_presets, item_count, last_index, preset, MenuState};
use crate::timer::{Pomodoro, PomodoroView};

verus! {

/// The dispatcher as the contracts see it.
pub struct AppView {
    pub pomo: PomodoroView,
    pub exit: bool,
    pub hide_image: bool,
    pub menu_state: MenuState,
    pub menu_selection: nat,
}

impl AppView {
    /// The state at startup: a fresh timer, the overlay closed.
    pub open spec fn initial(
        work_min: nat,
        break_min: nat,
        hide_image: bool,
        sound: Seq<char>,
        no_sound: bool,
    ) -> AppView {
        AppView {
            pomo: PomodoroView::initial(work_min * 60, break_min * 60, sound, no_sound),
            exit: false,
            hide_image,
            menu_state: MenuState::Closed,
            menu_selection: 0,
        }
    }

    /// While a screen is open the selection is one of its entries, given
    /// that `sounds` sound files are known.
    pub open spec fn menu_valid(self, sounds: nat) -> bool {
        self.menu_state != MenuState::Closed ==> self.menu_selection < item_count(
            self.menu_state,
            sounds,
        )
    }

    /// The screen `menu` opens with its first entry selected.
    pub open spec fn show(self, menu: MenuState) -> AppView {
        AppView { menu_state: menu, menu_selection: 0, ..self }
    }

    /// The overlay closes; the selection is left where it was.
    pub open spec fn close(self) -> AppView {
        AppView { menu_state: MenuState::Closed, ..self }
    }

    /// The timer becomes `pomo`; the overlay is untouched.
    pub open spec fn with_pomo(self, pomo: PomodoroView) -> AppView {
        AppView { pomo, ..self }
    }

    /// The selection moves up one entry and stops at the first.
    pub open spec fn up(self) -> AppView {
        if self.menu_selection > 0 {
            AppView { menu_selection: (self.menu_selection - 1) as nat, ..self }
        } else {
            self
        }
    }

    /// The selection moves down one entry and stops at the last.
    pub open spec fn down(self, sounds: nat) -> AppView {
        if self.menu_selection < last_index(self.menu_state, sounds) {
            AppView { menu_selection: self.menu_selection + 1, ..self }
        } else {
            self
        }
    }

    /// The selected entry of the open screen is confirmed.
    ///
    /// On the main screen the entries open the work duration screen, open
    /// the break duration screen, flip automatic restart without leaving,
    /// open the sound screen, and close the overlay with the selection back
    /// at the first entry. A duration screen applies the selected preset and
    /// returns to the main screen. The work extension screen either resumes
    /// work for the selected preset or, on its last entry, starts the
    /// waiting break; both close the overlay. The sound screen applies the
    /// selected file and returns to the main screen, and does nothing when
    /// the selection names no file.
    pub open spec fn confirm(self, sounds: Seq<Seq<char>>) -> AppView {
        let presets = duration_presets();
        match self.menu_state {
            MenuState::Closed => self,
            MenuState::MainMenu => if self.menu_selection == 0 {
                self.show(MenuState::SelectWorkDuration)
            } else if self.menu_selection == 1 {
                self.show(MenuState::SelectBreakDuration)
            } else if self.menu_selection == 2 {
                self.with_pomo(self.pomo.toggle_auto_start())
            } else if self.menu_selection == 3 {
                self.show(MenuState::SelectSound)
            } else if self.menu_selection == 4 {
                self.show(MenuState::Closed)
            } else {
                self
            },
            MenuState::SelectWorkDuration => if self.menu_selection < presets.len() {
                self.with_pomo(
                    self.pomo.set_work_duration(presets[self.menu_selection as int] as nat),
                ).show(MenuState::MainMenu)
            } else {
                self
            },
            MenuState::SelectBreakDuration => if self.menu_selection < presets.len() {
                self.with_pomo(
                    self.pomo.set_break_duration(presets[self.menu_selection as int] as nat),
                ).show(MenuState::MainMenu)
            } else {
                self
            },
            MenuState::ExtendWorkSession => if self.menu_selection < presets.len() {
                self.with_pomo(
                    self.pomo.extend_work_session(presets[self.menu_selection as int] as nat),
                ).close()
            } else {
                self.with_pomo(self.pomo.start_or_pause()).close()
            },
            MenuState::SelectSound => if self.menu_selection < sounds.len() {
                self.with_pomo(self.pomo.set_sound(sounds[self.menu_selection as int])).show(
                    MenuState::MainMenu,
                )
            } else {
                self
            },
        }
    }

    /// The open screen is left: the main screen closes the overlay, the
    /// screens below it return to the main screen, and the work extension
    /// screen starts the waiting break as its last entry would.
    pub open spec fn back(self) -> AppView {
        match self.menu_state {
            MenuState::Closed => self,
            MenuState::MainMenu => self.close(),
            MenuState::SelectWorkDuration => self.show(MenuState::MainMenu),
            MenuState::SelectBreakDuration => self.show(MenuState::MainMenu),
            MenuState::SelectSound => self.show(MenuState::MainMenu),
            MenuState::ExtendWorkSession => self.with_pomo(self.pomo.start_or_pause()).close(),
        }
    }

    /// A key press while the overlay is open.
    pub open spec fn menu_key(self, key: Key, sounds: Seq<Seq<char>>) -> AppView {
        match key {
            Key::Up => self.up(),
            Key::Down => self.down(sounds.len()),
            Key::Enter => self.confirm(sounds),
            Key::Esc => self.back(),
            _ => self,
        }
    }

    /// A key press while the overlay is closed: `s` starts or pauses, `r`
    /// resets, `c` opens the main screen, `q` and escape ask to leave.
    pub open spec fn hotkey(self, key: Key) -> AppView {
        match key {
            Key::Char(c) => if c == 's' {
                self.with_pomo(self.pomo.start_or_pause())
            } else if c == 'r' {
                self.with_pomo(self.pomo.reset())
            } else if c == 'c' {
                self.show(MenuState::MainMenu)
            } else if c == 'q' {
                AppView { exit: true, ..self }
            } else {
                self
            },
            Key::Esc => AppView { exit: true, ..self },
            _ => self,
        }
    }

    /// A key press: it goes to the overlay while a screen is open and to
    /// the hotkeys otherwise.
    pub open spec fn key(self, key: Key, sounds: Seq<Seq<char>>) -> AppView {
        if self.menu_state != MenuState::Closed {
            self.menu_key(key, sounds)
        } else {
            self.hotkey(key)
        }
    }

    /// A tick: the timer advances whatever the overlay shows, and a tick
    /// that ends a work session puts the work extension screen in front,
    /// with its first entry selected.
    pub open spec fn tick(self) -> AppView {
        if self.pomo.tick_ends_work() {
            self.with_pomo(self.pomo.tick()).show(MenuState::ExtendWorkSession)
        } else {
            self.with_pomo(self.pomo.tick())
        }
    }

    /// One event of the stream.
    pub open spec fn event(self, event: Event, sounds: Seq<Seq<char>>) -> AppView {
        match event {
            Event::Key(key) => self.key(key, sounds),
            Event::Tick => self.tick(),
        }
    }
}

/// The dispatcher: it owns the timer and the overlay and is the only one to
/// change them.
#[derive(Debug)]
pub struct App {
    pub pomo: Pomodoro,
    pub exit: bool,
    pub hide_image: bool,
    pub menu_state: MenuState,
    pub menu_selection: usize,
}

impl View for App {
    type V = AppView;

    open spec fn view(&self) -> AppView {
        AppView {
            pomo: self.pomo@,
            exit: self.exit,
            hide_image: self.hide_image,
            menu_state: self.menu_state,
            menu_selection: self.menu_selection as nat,
        }
    }
}

impl App {
    /// The dispatcher at startup, with work and break targets in whole
    /// minutes.
    pub fn new(work_min: u64, break_min: u64, hide_image: bool, sound: &str, no_sound: bool) -> (app:
        App)
        ensures
            app@ == AppView::initial(
                work_min as nat,
                break_min as nat,
                hide_image,
                sound@,
                no_sound,
            ),
            app.pomo.wf(),
    {
        App {
            pomo: Pomodoro::new((work_min, 0), (break_min, 0), sound.to_owned(), no_sound),
            exit: false,
            hide_image,
            menu_state: MenuState::Closed,
            menu_selection: 0,
        }
    }

    /// Starts a paused timer and pauses a running one.
    pub fn start_or_pause(&mut self)
        ensures
            final(self)@ == old(self)@.with_pomo(old(self)@.pomo.start_or_pause()),
            old(self).pomo.wf() ==> final(self).pomo.wf(),
    {
        self.pomo.start_or_pause();
    }

    /// Whether the user has asked to leave.
    pub fn should_exit(&self) -> (exit: bool)
        ensures
            exit == self@.exit,
    {
        self.exit
    }

    /// Confirms the selected entry of the open screen; `sound_files` are
    /// the sound files known at this moment, in the order in which the
    /// sound screen lists them.
    pub fn handle_menu_selection(&mut self, sound_files: &Vec<String>)
        ensures
            final(self)@ == old(self)@.confirm(sound_files.deep_view()),
            old(self).pomo.wf() ==> final(self).pomo.wf(),
    {
        match self.menu_state {
            MenuState::Closed => {},
            MenuState::MainMenu => {
                if self.menu_selection == 0 {
                    self.menu_state = MenuState::SelectWorkDuration;
                    self.menu_selection = 0;
                } else if self.menu_selection == 1 {
                    self.menu_state = MenuState::SelectBreakDuration;
                    self.menu_selection = 0;
                } else if self.menu_selection == 2 {
                    self.pomo.toggle_auto_start();
                } else if self.menu_selection == 3 {
                    self.menu_state = MenuState::SelectSound;
                    self.menu_selection = 0;
                } else if self.menu_selection == 4 {
                    self.menu_state = MenuState::Closed;
                    self.menu_selection = 0;
                }
            },
            MenuState::SelectWorkDuration => {
                if let Some(minutes) = preset(self.menu_selection) {
                    self.pomo.set_work_duration(minutes);
                    self.menu_state = MenuState::MainMenu;
                    self.menu_selection = 0;
                }
            },
            MenuState::SelectBreakDuration => {
                if let Some(minutes) = preset(self.menu_selection) {
                    self.pomo.set_break_duration(minutes);
                    self.menu_state = MenuState::MainMenu;
                    self.menu_selection = 0;
                }
            },
            MenuState::ExtendWorkSession => {
                if let Some(minutes) = preset(self.menu_selection) {
                    self.pomo.extend_work_session(minutes);
                } else {
                    self.pomo.start_or_pause();
                }
                self.menu_state = MenuState::Closed;
            },
            MenuState::SelectSound => {
                if self.menu_selection < sound_files.len() {
                    let selected = sound_files[self.menu_selection].clone();
                    self.pomo.set_sound(selected);
                    self.menu_state = MenuState::MainMenu;
                    self.menu_selection = 0;
                }
            },
        }
    }

    /// Handles a key press while the overlay is open.
    pub fn handle_menu_key_event(&mut self, key: Key, sound_files: &Vec<String>)
        ensures
            final(self)@ == old(self)@.menu_key(key, sound_files.deep_view()),
            old(self).pomo.wf() ==> final(self).pomo.wf(),
    {
        match key {
            Key::Up => {
                if self.menu_selection > 0 {
                    self.menu_selection -= 1;
                }
            },
            Key::Down => {
                let last = self.menu_state.last_index(sound_files.len());
                if self.menu_selection < last {
                    self.menu_selection += 1;
                }
            },
            Key::Enter => {
                self.handle_menu_selection(sound_files);
            },
            Key::Esc => {
                match self.menu_state {
                    MenuState::Closed => {},
                    MenuState::MainMenu => {
                        self.menu_state = MenuState::Closed;
                    },
                    MenuState::SelectWorkDuration
                    | MenuState::SelectBreakDuration
                    | MenuState::SelectSound => {
                        self.menu_state = MenuState::MainMenu;
                        self.menu_selection = 0;
                    },
                    MenuState::ExtendWorkSession => {
                        self.pomo.start_or_pause();
                        self.menu_state = MenuState::Closed;
                    },
                }
            },
            _ => {},
        }
    }

    /// Handles a key press: it goes to the overlay while a screen is open
    /// and to the hotkeys otherwise.
    pub fn handle_key_event(&mut self, key: Key, sound_files: &Vec<String>)
        ensures
            final(self)@ == old(self)@.key(key, sound_files.deep_view()),
            old(self).pomo.wf() ==> final(self).pomo.wf(),
    {
        if self.menu_state.is_open() {
            self.handle_menu_key_event(key, sound_files);
        } else {
            match key {
                Key::Char(c) => {
                    if c == 's' {
                        self.pomo.start_or_pause();
                    } else if c == 'r' {
                        self.pomo.reset();
                    } else if c == 'c' {
                        self.menu_state = MenuState::MainMenu;
                        self.menu_selection = 0;
                    } else if c == 'q' {
                        self.exit = true;
                    }
                },
                Key::Esc => {
                    self.exit = true;
                },
                _ => {},
            }
        }
    }

    /// Handles a tick and tells whether it ended a work session.
    pub fn handle_tick(&mut self) -> (work_ended: bool)
        ensures
            final(self)@ == old(self)@.tick(),
            work_ended == old(self)@.pomo.tick_ends_work(),
            old(self).pomo.wf() ==> final(self).pomo.wf(),
    {
        let work_ended = self.pomo.check_and_switch();
        if work_ended {
            self.menu_state = MenuState::ExtendWorkSession;
            self.menu_selection = 0;
        }
        work_ended
    }

    /// Handles one event of the stream; `sound_files` are the sound files
    /// known at this moment.
    pub fn handle_event(&mut self, event: Event, sound_files: &Vec<String>)
        ensures
            final(self)@ == old(self)@.event(event, sound_files.deep_view()),
            old(self).pomo.wf() ==> final(self).pomo.wf(),
    {
        match event {
            Event::Key(key) => {
                self.handle_key_event(key, sound_files);
            },
            Event::Tick => {
                self.handle_tick();
            },
        }
    }
}

} // verus!
