//! What the screen shows, as plain values: the texts, sizes and proportions
//! that a renderer needs to draw the timer and the overlay.

use vstd::prelude::*;
use vstd::string::*;
use crate::menu::{duration_presets, item_count, preset, MenuState, DURATION_PRESETS};
use crate::sounds::{file_name, file_name_of};
use crate::text::{decimal, push_decimal};
use crate::timer::PomodoroState;

verus! {

/// How large the glyphs of a big clock face are drawn.
#[derive(Clone, Copy, Debug, PartialEq, Eq, Structural)]
pub enum PixelSize {
    /// One terminal cell per pixel of the glyph.
    Full,
    /// A quarter of a terminal cell per pixel.
    Quadrant,
}

/// The space and glyph size given to one of the two clock faces.
#[derive(Clone, Copy, Debug, PartialEq, Eq, Structural)]
pub struct ClockFace {
    /// The height in terminal rows.
    pub rows: u16,
    pub pixel: PixelSize,
}

/// The clock face of a phase: large while the phase is active, small
/// while it waits.
pub open spec fn face_of(active: bool) -> ClockFace {
    if active {
        ClockFace { rows: 8, pixel: PixelSize::Full }
    } else {
        ClockFace { rows: 4, pixel: PixelSize::Quadrant }
    }
}

/// The clock faces of the work and of the break countdown, in this order,
/// while `phase` is active.
pub fn clock_faces(phase: PomodoroState) -> (faces: (ClockFace, ClockFace))
    ensures
        faces.0 == face_of(phase == PomodoroState::Work),
        faces.1 == face_of(phase == PomodoroState::Break),
{
    let large = ClockFace { rows: 8, pixel: PixelSize::Full };
    let small = ClockFace { rows: 4, pixel: PixelSize::Quadrant };
    match phase {
        PomodoroState::Work => (large, small),
        PomodoroState::Break => (small, large),
    }
}

/// The height in terminal rows of the picture beside the clocks.
pub const IMAGE_ROWS: u16 = 10;

/// The share of the screen, in percent of its width and of its height,
/// that the overlay covers.
pub const POPUP_PERCENT: u16 = 60;

/// The widths, in percent of the screen, of the picture column and of the
/// clock column: halves, or all for the clocks where the picture is hidden.
pub fn column_widths(hide_image: bool) -> (widths: (u16, u16))
    ensures
        widths == if hide_image {
            (0u16, 100u16)
        } else {
            (50u16, 50u16)
        },
{
    if hide_image {
        (0, 100)
    } else {
        (50, 50)
    }
}

/// The margin, in percent, on either side of something that takes
/// `percent` of the space and sits in the middle.
pub fn side_margin(percent: u16) -> (margin: u16)
    requires
        percent <= 100,
    ensures
        margin == (100 - percent) / 2,
        margin + percent + margin <= 100,
{
    (100 - percent) / 2
}

/// The word in front of the start and pause key in the footer.
pub fn start_pause_label(running: bool) -> (label: &'static str)
    ensures
        label@ == if running {
            "Pause "@
        } else {
            "Start "@
        },
{
    if running {
        "Pause "
    } else {
        "Start "
    }
}

/// The heading of a screen of the overlay.
pub open spec fn title_of(menu: MenuState) -> Seq<char> {
    match menu {
        MenuState::Closed => ""@,
        MenuState::MainMenu => "Configuration Menu"@,
        MenuState::SelectWorkDuration => "Select Work Duration (minutes)"@,
        MenuState::SelectBreakDuration => "Select Break Duration (minutes)"@,
        MenuState::ExtendWorkSession => "Work Session Complete! Extend?"@,
        MenuState::SelectSound => "Select Notification Sound"@,
    }
}

/// The heading of a screen of the overlay.
pub fn menu_title(menu: MenuState) -> (title: &'static str)
    ensures
        title@ == title_of(menu),
{
    match menu {
        MenuState::Closed => "",
        MenuState::MainMenu => "Configuration Menu",
        MenuState::SelectWorkDuration => "Select Work Duration (minutes)",
        MenuState::SelectBreakDuration => "Select Break Duration (minutes)",
        MenuState::ExtendWorkSession => "Work Session Complete! Extend?",
        MenuState::SelectSound => "Select Notification Sound",
    }
}

/// The entry of a duration screen for a preset of `minutes`.
pub open spec fn minutes_label(minutes: nat) -> Seq<char> {
    decimal(minutes) + " minutes"@
}

/// The entry of the work extension screen for a preset of `minutes`.
pub open spec fn extend_label(minutes: nat) -> Seq<char> {
    "Extend "@ + decimal(minutes) + " minutes"@
}

/// The entries of the main screen.
pub open spec fn main_labels(auto_start: bool) -> Seq<Seq<char>> {
    seq![
        "Change Work Duration"@,
        "Change Break Duration"@,
        if auto_start {
            "Toggle Auto-Start (ON)"@
        } else {
            "Toggle Auto-Start (OFF)"@
        },
        "Change Notification Sound"@,
        "Back"@,
    ]
}

/// The entries of the sound screen: the file names of the known sound
/// files, or one line that says that there are none.
pub open spec fn sound_labels(sounds: Seq<Seq<char>>) -> Seq<Seq<char>> {
    if sounds.len() == 0 {
        seq!["No sound files found in sounds/"@]
    } else {
        sounds.map_values(|path: Seq<char>| file_name_of(path))
    }
}

/// The entries of `menu`, top to bottom.
pub open spec fn menu_labels(menu: MenuState, auto_start: bool, sounds: Seq<Seq<char>>) -> Seq<
    Seq<char>,
> {
    match menu {
        MenuState::Closed => Seq::empty(),
        MenuState::MainMenu => main_labels(auto_start),
        MenuState::SelectWorkDuration => duration_presets().map_values(
            |m: u64| minutes_label(m as nat),
        ),
        MenuState::SelectBreakDuration => duration_presets().map_values(
            |m: u64| minutes_label(m as nat),
        ),
        MenuState::ExtendWorkSession => duration_presets().map_values(
            |m: u64| extend_label(m as nat),
        ).push("No, start break"@),
        MenuState::SelectSound => sound_labels(sounds),
    }
}

/// A screen shows exactly as many entries as the selection can move over.
pub proof fn lemma_labels_match_item_count(
    menu: MenuState,
    auto_start: bool,
    sounds: Seq<Seq<char>>,
)
    ensures
        menu_labels(menu, auto_start, sounds).len() == item_count(menu, sounds.len()),
{
}

/// The line of an entry: the entry behind a marker that points at the
/// selected one.
pub open spec fn line_of(label: Seq<char>, selected: bool) -> Seq<char> {
    if selected {
        "> "@ + label
    } else {
        "  "@ + label
    }
}

/// The line of an entry of the overlay.
pub fn menu_line(label: &str, selected: bool) -> (line: String)
    ensures
        line@ == line_of(label@, selected),
{
    let mut line = if selected {
        String::from_str("> ")
    } else {
        String::from_str("  ")
    };
    line.append(label);
    line
}

/// The entries of a duration screen, or of the work extension screen
/// without its last entry where `extend` is set.
fn preset_labels(extend: bool) -> (labels: Vec<String>)
    ensures
        labels.deep_view() == duration_presets().map_values(
            |m: u64|
                if extend {
                    extend_label(m as nat)
                } else {
                    minutes_label(m as nat)
                },
        ),
{
    let mut labels: Vec<String> = Vec::new();
    let mut i: usize = 0;
    while i < DURATION_PRESETS.len()
        invariant
            i <= duration_presets().len(),
            labels.len() == i,
            forall|k: int|
                0 <= k < i ==> #[trigger] labels@[k]@ == if extend {
                    extend_label(duration_presets()[k] as nat)
                } else {
                    minutes_label(duration_presets()[k] as nat)
                },
        decreases duration_presets().len() - i,
    {
        let minutes = preset(i).unwrap();
        let mut label = if extend {
            String::from_str("Extend ")
        } else {
            String::new()
        };
        push_decimal(&mut label, minutes);
        label.append(" minutes");
        labels.push(label);
        i += 1;
    }
    proof {
        assert(labels.deep_view() =~= duration_presets().map_values(
            |m: u64|
                if extend {
                    extend_label(m as nat)
                } else {
                    minutes_label(m as nat)
                },
        ));
    }
    labels
}

/// The entries of the main screen.
fn main_items(auto_start: bool) -> (items: Vec<String>)
    ensures
        items.deep_view() == main_labels(auto_start),
{
    let mut items: Vec<String> = Vec::new();
    items.push(String::from_str("Change Work Duration"));
    items.push(String::from_str("Change Break Duration"));
    if auto_start {
        items.push(String::from_str("Toggle Auto-Start (ON)"));
    } else {
        items.push(String::from_str("Toggle Auto-Start (OFF)"));
    }
    items.push(String::from_str("Change Notification Sound"));
    items.push(String::from_str("Back"));
    proof {
        assert(items.deep_view() =~= main_labels(auto_start));
    }
    items
}

/// The entries of the sound screen.
fn sound_items(sound_files: &Vec<String>) -> (items: Vec<String>)
    ensures
        items.deep_view() == sound_labels(sound_files.deep_view()),
{
    let mut items: Vec<String> = Vec::new();
    if sound_files.len() == 0 {
        items.push(String::from_str("No sound files found in sounds/"));
    } else {
        let mut i: usize = 0;
        while i < sound_files.len()
            invariant
                i <= sound_files.len(),
                items.len() == i,
                forall|k: int|
                    0 <= k < i ==> #[trigger] items@[k]@ == file_name_of(sound_files@[k]@),
            decreases sound_files.len() - i,
        {
            items.push(String::from_str(file_name(sound_files[i].as_str())));
            i += 1;
        }
    }
    proof {
        assert(items.deep_view() =~= sound_labels(sound_files.deep_view()));
    }
    items
}

/// The entries of `menu`, top to bottom, given the state of automatic
/// restart and the sound files known at this moment.
pub fn menu_items(menu: MenuState, auto_start: bool, sound_files: &Vec<String>) -> (items: Vec<
    String,
>)
    ensures
        items.deep_view() == menu_labels(menu, auto_start, sound_files.deep_view()),
        items.len() == item_count(menu, sound_files.len() as nat),
{
    let items = match menu {
        MenuState::Closed => Vec::new(),
        MenuState::MainMenu => main_items(auto_start),
        MenuState::SelectWorkDuration => preset_labels(false),
        MenuState::SelectBreakDuration => preset_labels(false),
        MenuState::ExtendWorkSession => {
            let mut items = preset_labels(true);
            let ghost presets = items.deep_view();
            items.push(String::from_str("No, start break"));
            proof {
                assert(items.deep_view() =~= presets.push("No, start break"@));
            }
            items
        },
        MenuState::SelectSound => sound_items(sound_files),
    };
    proof {
        assert(items.deep_view() =~= menu_labels(menu, auto_start, sound_files.deep_view()));
        assert(items.deep_view().len() == items.len());
    }
    items
}

} // verus!
