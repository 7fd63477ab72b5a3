use pomodoro_tui::menu::preset;
use pomodoro_tui::{App, Duration, Event, Key, MenuState, PomodoroState, DURATION_PRESETS};

fn app() -> App {
    App::new(25, 5, false, "sounds/bell.mp3", false)
}

fn sounds() -> Vec<String> {
    vec![
        String::from("sounds/alarm.wav"),
        String::from("sounds/bell.mp3"),
        String::from("sounds/chime.ogg"),
    ]
}

fn press(app: &mut App, keys: &[Key], sounds: &Vec<String>) {
    for key in keys {
        app.handle_event(Event::Key(*key), sounds);
    }
}

#[test]
fn new_app_has_the_menu_closed() {
    let a = App::new(25, 5, true, "sounds/bell.mp3", true);
    assert_eq!(a.menu_state, MenuState::Closed);
    assert_eq!(a.menu_selection, 0);
    assert!(!a.should_exit());
    assert!(a.hide_image);
    assert!(a.pomo.no_sound);
    assert_eq!(a.pomo.sound_path, "sounds/bell.mp3");
    assert_eq!(a.pomo.work_time(), "25:00");
    assert_eq!(a.pomo.break_time(), "05:00");
    assert_eq!(a.pomo.state(), PomodoroState::Work);
    assert!(!a.pomo.is_running());
}

#[test]
fn presets_are_the_eleven_fixed_values() {
    assert_eq!(DURATION_PRESETS, [2, 3, 4, 5, 10, 15, 20, 25, 30, 45, 60]);
    assert_eq!(preset(0), Some(2));
    assert_eq!(preset(4), Some(10));
    assert_eq!(preset(10), Some(60));
    assert_eq!(preset(11), None);
    assert_eq!(preset(usize::MAX), None);
}

#[test]
fn item_counts_of_the_screens() {
    assert_eq!(MenuState::Closed.item_count(3), 0);
    assert_eq!(MenuState::MainMenu.item_count(3), 5);
    assert_eq!(MenuState::SelectWorkDuration.item_count(3), 11);
    assert_eq!(MenuState::SelectBreakDuration.item_count(3), 11);
    assert_eq!(MenuState::ExtendWorkSession.item_count(3), 12);
    assert_eq!(MenuState::SelectSound.item_count(3), 3);
    assert_eq!(MenuState::SelectSound.item_count(0), 1);
    assert_eq!(MenuState::SelectSound.last_index(0), 0);
    assert_eq!(MenuState::SelectSound.last_index(7), 6);
    assert_eq!(MenuState::Closed.last_index(7), 0);
    assert!(!MenuState::Closed.is_open());
    assert!(MenuState::SelectSound.is_open());
}

#[test]
fn hotkeys_drive_the_timer_while_the_menu_is_closed() {
    let mut a = app();
    let s = sounds();
    press(&mut a, &[Key::Char('s')], &s);
    assert!(a.pomo.is_running());
    a.handle_event(Event::Tick, &s);
    assert_eq!(a.pomo.work_time(), "24:59");
    press(&mut a, &[Key::Char('r')], &s);
    assert!(!a.pomo.is_running());
    assert_eq!(a.pomo.work_time(), "25:00");
    press(&mut a, &[Key::Char('x'), Key::Up, Key::Down, Key::Enter, Key::Other], &s);
    assert_eq!(a.menu_state, MenuState::Closed);
    assert!(!a.should_exit());
    assert!(!a.pomo.is_running());
}

#[test]
fn q_and_escape_ask_to_leave() {
    let s = sounds();
    let mut a = app();
    press(&mut a, &[Key::Char('q')], &s);
    assert!(a.should_exit());
    let mut b = app();
    press(&mut b, &[Key::Esc], &s);
    assert!(b.should_exit());
}

#[test]
fn hotkeys_are_off_while_a_screen_is_open() {
    let mut a = app();
    let s = sounds();
    press(&mut a, &[Key::Char('c')], &s);
    assert_eq!(a.menu_state, MenuState::MainMenu);
    press(&mut a, &[Key::Char('s'), Key::Char('r'), Key::Char('q'), Key::Char('c')], &s);
    assert_eq!(a.menu_state, MenuState::MainMenu);
    assert!(!a.pomo.is_running());
    assert!(!a.should_exit());
    press(&mut a, &[Key::Esc], &s);
    assert_eq!(a.menu_state, MenuState::Closed);
    assert!(!a.should_exit());
}

#[test]
fn down_stops_at_the_last_entry_of_every_screen() {
    let s = sounds();
    let screens = [
        (MenuState::MainMenu, 4),
        (MenuState::SelectWorkDuration, 10),
        (MenuState::SelectBreakDuration, 10),
        (MenuState::ExtendWorkSession, 11),
        (MenuState::SelectSound, 2),
    ];
    for (screen, last) in screens {
        let mut a = app();
        a.menu_state = screen;
        for n in 1..=40usize {
            a.handle_menu_key_event(Key::Down, &s);
            assert_eq!(a.menu_selection, n.min(last));
            assert!(a.menu_selection < screen.item_count(s.len()));
            assert_eq!(a.menu_state, screen);
        }
    }
}

#[test]
fn up_stops_at_the_first_entry() {
    let s = sounds();
    let mut a = app();
    a.menu_state = MenuState::ExtendWorkSession;
    a.menu_selection = 3;
    for n in 1..=10usize {
        a.handle_menu_key_event(Key::Up, &s);
        assert_eq!(a.menu_selection, 3usize.saturating_sub(n));
    }
    assert_eq!(a.menu_selection, 0);
    assert_eq!(a.menu_state, MenuState::ExtendWorkSession);
}

#[test]
fn empty_sound_screen_holds_the_selection_on_its_placeholder() {
    let none: Vec<String> = Vec::new();
    let mut a = app();
    press(&mut a, &[Key::Char('c'), Key::Down, Key::Down, Key::Down, Key::Enter], &none);
    assert_eq!(a.menu_state, MenuState::SelectSound);
    press(&mut a, &[Key::Down, Key::Down], &none);
    assert_eq!(a.menu_selection, 0);
    press(&mut a, &[Key::Enter], &none);
    assert_eq!(a.menu_state, MenuState::SelectSound);
    assert_eq!(a.menu_selection, 0);
    assert_eq!(a.pomo.sound_path, "sounds/bell.mp3");
}

#[test]
fn main_screen_entries() {
    let s = sounds();
    let mut a = app();
    press(&mut a, &[Key::Char('c'), Key::Enter], &s);
    assert_eq!(a.menu_state, MenuState::SelectWorkDuration);
    assert_eq!(a.menu_selection, 0);

    let mut a = app();
    press(&mut a, &[Key::Char('c'), Key::Down, Key::Enter], &s);
    assert_eq!(a.menu_state, MenuState::SelectBreakDuration);
    assert_eq!(a.menu_selection, 0);

    let mut a = app();
    press(&mut a, &[Key::Char('c'), Key::Down, Key::Down, Key::Enter], &s);
    assert_eq!(a.menu_state, MenuState::MainMenu);
    assert_eq!(a.menu_selection, 2);
    assert!(a.pomo.auto_start());
    press(&mut a, &[Key::Enter], &s);
    assert!(!a.pomo.auto_start());

    let mut a = app();
    press(&mut a, &[Key::Char('c'), Key::Down, Key::Down, Key::Down, Key::Enter], &s);
    assert_eq!(a.menu_state, MenuState::SelectSound);
    assert_eq!(a.menu_selection, 0);

    let mut a = app();
    press(&mut a, &[Key::Char('c'), Key::Down, Key::Down, Key::Down, Key::Down, Key::Enter], &s);
    assert_eq!(a.menu_state, MenuState::Closed);
    assert_eq!(a.menu_selection, 0);
    assert!(!a.should_exit());
}

#[test]
fn work_duration_screen_applies_the_preset() {
    let s = sounds();
    let mut a = app();
    press(&mut a, &[Key::Char('s')], &s);
    a.handle_event(Event::Tick, &s);
    press(&mut a, &[Key::Char('c'), Key::Enter, Key::Down, Key::Down, Key::Down, Key::Down], &s);
    assert_eq!(a.menu_selection, 4);
    press(&mut a, &[Key::Enter], &s);
    assert_eq!(a.menu_state, MenuState::MainMenu);
    assert_eq!(a.menu_selection, 0);
    assert_eq!(a.pomo.work_duration, Duration { minutes: 10, seconds: 0 });
    assert_eq!(a.pomo.work_remaining, Duration { minutes: 10, seconds: 0 });
    assert_eq!(a.pomo.break_time(), "05:00");
}

#[test]
fn break_duration_screen_applies_the_preset() {
    let s = sounds();
    let mut a = app();
    press(&mut a, &[Key::Char('c'), Key::Down, Key::Enter], &s);
    for _ in 0..20 {
        press(&mut a, &[Key::Down], &s);
    }
    assert_eq!(a.menu_selection, 10);
    press(&mut a, &[Key::Enter], &s);
    assert_eq!(a.menu_state, MenuState::MainMenu);
    assert_eq!(a.menu_selection, 0);
    assert_eq!(a.pomo.break_duration, Duration { minutes: 60, seconds: 0 });
    assert_eq!(a.pomo.break_remaining, Duration { minutes: 60, seconds: 0 });
    assert_eq!(a.pomo.work_time(), "25:00");
}

#[test]
fn sound_screen_applies_the_selected_file() {
    let s = sounds();
    let mut a = app();
    press(
        &mut a,
        &[Key::Char('c'), Key::Down, Key::Down, Key::Down, Key::Enter, Key::Down, Key::Down, Key::Enter],
        &s,
    );
    assert_eq!(a.menu_state, MenuState::MainMenu);
    assert_eq!(a.menu_selection, 0);
    assert_eq!(a.pomo.sound_path, "sounds/chime.ogg");
}

#[test]
fn sound_screen_ignores_a_selection_that_names_no_file() {
    let s = sounds();
    let fewer = vec![String::from("sounds/alarm.wav")];
    let mut a = app();
    press(&mut a, &[Key::Char('c'), Key::Down, Key::Down, Key::Down, Key::Enter, Key::Down, Key::Down], &s);
    assert_eq!(a.menu_selection, 2);
    press(&mut a, &[Key::Enter], &fewer);
    assert_eq!(a.menu_state, MenuState::SelectSound);
    assert_eq!(a.menu_selection, 2);
    assert_eq!(a.pomo.sound_path, "sounds/bell.mp3");
}

#[test]
fn escape_goes_back_one_level() {
    let s = sounds();
    for screen in [MenuState::SelectWorkDuration, MenuState::SelectBreakDuration, MenuState::SelectSound] {
        let mut a = app();
        a.menu_state = screen;
        a.menu_selection = 1;
        a.handle_key_event(Key::Esc, &s);
        assert_eq!(a.menu_state, MenuState::MainMenu);
        assert_eq!(a.menu_selection, 0);
        assert_eq!(a.pomo.work_time(), "25:00");
        assert!(!a.should_exit());
    }
}

#[test]
fn sound_screen_round_trip_changes_no_setting() {
    let s = sounds();
    let mut a = app();
    press(&mut a, &[Key::Char('s')], &s);
    a.handle_event(Event::Tick, &s);
    let before = format!("{:?}", a.pomo);
    press(&mut a, &[Key::Char('c'), Key::Down, Key::Down, Key::Down, Key::Enter], &s);
    assert_eq!(a.menu_state, MenuState::SelectSound);
    press(&mut a, &[Key::Esc], &s);
    assert_eq!(a.menu_state, MenuState::MainMenu);
    assert_eq!(a.menu_selection, 0);
    assert_eq!(format!("{:?}", a.pomo), before);
    assert_eq!(a.pomo.work_duration, Duration { minutes: 25, seconds: 0 });
    assert_eq!(a.pomo.break_duration, Duration { minutes: 5, seconds: 0 });
    assert!(!a.pomo.auto_start());
    assert_eq!(a.pomo.sound_path, "sounds/bell.mp3");
}

fn app_after_two_minutes_of_work() -> App {
    let s = sounds();
    let mut a = App::new(2, 5, false, "sounds/bell.mp3", false);
    a.start_or_pause();
    for _ in 0..119 {
        a.handle_event(Event::Tick, &s);
        assert_eq!(a.menu_state, MenuState::Closed);
    }
    a.handle_event(Event::Tick, &s);
    a
}

#[test]
fn the_120th_tick_opens_the_extension_screen() {
    let a = app_after_two_minutes_of_work();
    assert_eq!(a.pomo.state(), PomodoroState::Break);
    assert!(!a.pomo.is_running());
    assert_eq!(a.menu_state, MenuState::ExtendWorkSession);
    assert_eq!(a.menu_selection, 0);
}

#[test]
fn handle_tick_reports_the_end_of_work() {
    let mut a = App::new(0, 5, false, "sounds/bell.mp3", false);
    assert!(!a.handle_tick());
    a.start_or_pause();
    assert!(a.handle_tick());
    assert_eq!(a.menu_state, MenuState::ExtendWorkSession);
    assert!(!a.handle_tick());
}

#[test]
fn end_of_work_takes_over_an_open_screen() {
    let s = sounds();
    let mut a = App::new(2, 5, false, "sounds/bell.mp3", false);
    a.start_or_pause();
    press(&mut a, &[Key::Char('c'), Key::Down, Key::Down, Key::Down], &s);
    assert_eq!(a.menu_selection, 3);
    for _ in 0..119 {
        a.handle_event(Event::Tick, &s);
        assert_eq!(a.menu_state, MenuState::MainMenu);
        assert_eq!(a.menu_selection, 3);
    }
    assert_eq!(a.pomo.work_time(), "00:01");
    a.handle_event(Event::Tick, &s);
    assert_eq!(a.menu_state, MenuState::ExtendWorkSession);
    assert_eq!(a.menu_selection, 0);
}

#[test]
fn extension_by_the_third_preset_resumes_work_for_four_minutes() {
    let s = sounds();
    let mut a = app_after_two_minutes_of_work();
    press(&mut a, &[Key::Down, Key::Down, Key::Enter], &s);
    assert_eq!(a.pomo.state(), PomodoroState::Work);
    assert_eq!(a.pomo.work_remaining, Duration { minutes: 4, seconds: 0 });
    assert!(a.pomo.is_running());
    assert_eq!(a.menu_state, MenuState::Closed);
    assert_eq!(a.pomo.work_duration, Duration { minutes: 2, seconds: 0 });
}

#[test]
fn last_extension_entry_starts_the_break() {
    let s = sounds();
    let mut a = app_after_two_minutes_of_work();
    for _ in 0..11 {
        press(&mut a, &[Key::Down], &s);
    }
    assert_eq!(a.menu_selection, 11);
    press(&mut a, &[Key::Enter], &s);
    assert_eq!(a.pomo.state(), PomodoroState::Break);
    assert!(a.pomo.is_running());
    assert_eq!(a.menu_state, MenuState::Closed);
    assert_eq!(a.pomo.break_time(), "05:00");
}

#[test]
fn escape_on_the_extension_screen_starts_the_break() {
    let s = sounds();
    let mut a = app_after_two_minutes_of_work();
    press(&mut a, &[Key::Down, Key::Esc], &s);
    assert_eq!(a.pomo.state(), PomodoroState::Break);
    assert!(a.pomo.is_running());
    assert_eq!(a.menu_state, MenuState::Closed);
    assert!(!a.should_exit());
    assert_eq!(a.pomo.work_time(), "00:00");
}

#[test]
fn ticks_count_while_a_screen_is_open() {
    let s = sounds();
    let mut a = app();
    press(&mut a, &[Key::Char('s'), Key::Char('c')], &s);
    for _ in 0..5 {
        a.handle_event(Event::Tick, &s);
    }
    assert_eq!(a.pomo.work_time(), "24:55");
    assert_eq!(a.menu_state, MenuState::MainMenu);
}

#[test]
fn confirm_on_a_closed_menu_does_nothing() {
    let s = sounds();
    let mut a = app();
    a.menu_selection = 7;
    a.handle_menu_selection(&s);
    a.handle_menu_key_event(Key::Down, &s);
    a.handle_menu_key_event(Key::Esc, &s);
    assert_eq!(a.menu_state, MenuState::Closed);
    assert_eq!(a.menu_selection, 7);
    assert_eq!(a.pomo.work_time(), "25:00");
    assert!(!a.pomo.is_running());
}

#[test]
fn main_screen_ignores_a_selection_beyond_its_entries() {
    let s = sounds();
    let mut a = app();
    a.menu_state = MenuState::MainMenu;
    a.menu_selection = 9;
    a.handle_menu_selection(&s);
    assert_eq!(a.menu_state, MenuState::MainMenu);
    assert_eq!(a.menu_selection, 9);
    a.menu_state = MenuState::SelectWorkDuration;
    a.menu_selection = 11;
    a.handle_menu_selection(&s);
    assert_eq!(a.menu_state, MenuState::SelectWorkDuration);
    assert_eq!(a.pomo.work_time(), "25:00");
}
