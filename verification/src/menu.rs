//! The configuration overlay: its screens, how many entries each one has,
//! and the duration presets that three of them offer.

use vstd::prelude::*;

verus! {

/// The durations, in minutes, that the duration screens offer, in the order
/// in which they are listed.
pub const DURATION_PRESETS: [u64; 11] = [2, 3, 4, 5, 10, 15, 20, 25, 30, 45, 60];

/// The presets as a sequence.
pub open spec fn duration_presets() -> Seq<u64> {
    seq![2, 3, 4, 5, 10, 15, 20, 25, 30, 45, 60]
}

/// The preset at `index`, if there is one.
pub fn preset(index: usize) -> (minutes: Option<u64>)
    ensures
        minutes == if index < duration_presets().len() {
            Some(duration_presets()[index as int])
        } else {
            None
        },
{
    if index < DURATION_PRESETS.len() {
        Some(DURATION_PRESETS[index])
    } else {
        None
    }
}

/// The screen of the overlay that is open, `Closed` while none is.
#[derive(Clone, Copy, Debug, PartialEq, Eq, Structural)]
pub enum MenuState {
    Closed,
    MainMenu,
    SelectWorkDuration,
    SelectBreakDuration,
    ExtendWorkSession,
    SelectSound,
}

/// The number of entries that `menu` lists when `sounds` sound files are
/// known: a closed overlay lists nothing, the sound screen lists one
/// placeholder when no file is known, and the work extension screen lists
/// every preset and then the entry that starts the break.
pub open spec fn item_count(menu: MenuState, sounds: nat) -> nat {
    match menu {
        MenuState::Closed => 0,
        MenuState::MainMenu => 5,
        MenuState::SelectWorkDuration => duration_presets().len(),
        MenuState::SelectBreakDuration => duration_presets().len(),
        MenuState::ExtendWorkSession => duration_presets().len() + 1,
        MenuState::SelectSound => if sounds == 0 {
            1
        } else {
            sounds
        },
    }
}

/// The index of the last entry of `menu`, zero where it lists nothing.
pub open spec fn last_index(menu: MenuState, sounds: nat) -> nat {
    if item_count(menu, sounds) == 0 {
        0
    } else {
        (item_count(menu, sounds) - 1) as nat
    }
}

impl MenuState {
    /// Whether the overlay is open.
    pub fn is_open(&self) -> (open: bool)
        ensures
            open == (*self != MenuState::Closed),
    {
        match self {
            MenuState::Closed => false,
            _ => true,
        }
    }

    /// The number of entries of this screen when `sounds` sound files are
    /// known.
    pub fn item_count(&self, sounds: usize) -> (count: usize)
        ensures
            count == item_count(*self, sounds as nat),
    {
        match self {
            MenuState::Closed => 0,
            MenuState::MainMenu => 5,
            MenuState::SelectWorkDuration => DURATION_PRESETS.len(),
            MenuState::SelectBreakDuration => DURATION_PRESETS.len(),
            MenuState::ExtendWorkSession => DURATION_PRESETS.len() + 1,
            MenuState::SelectSound => if sounds == 0 {
                1
            } else {
                sounds
            },
        }
    }

    /// The index of the last entry of this screen.
    pub fn last_index(&self, sounds: usize) -> (last: usize)
        ensures
            last == last_index(*self, sounds as nat),
    {
        let count = self.item_count(sounds);
        if count == 0 {
            0
        } else {
            count - 1
        }
    }
}

} // verus!
