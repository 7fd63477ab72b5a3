//! Countdown durations as a pair of minutes and seconds.

use vstd::prelude::*;
use vstd::string::*;
use crate::text::{digit_char, lemma_two_digits, push_two_digits, two_digits};

verus! {

/// A span of time held as whole minutes plus seconds.
#[derive(Clone, Copy, Debug, PartialEq, Eq, Structural)]
pub struct Duration {
    pub minutes: u64,
    pub seconds: u64,
}

impl View for Duration {
    type V = nat;

    /// A duration stands for its total number of seconds.
    open spec fn view(&self) -> nat {
        (self.minutes * 60 + self.seconds) as nat
    }
}

/// The clock face `MM:SS` of a minutes and seconds pair: each part in
/// decimal, at least two digits wide.
pub open spec fn clock_text(minutes: nat, seconds: nat) -> Seq<char> {
    two_digits(minutes) + seq![':'] + two_digits(seconds)
}

/// Below a hundred minutes the clock face is five characters: two digits
/// of minutes, a colon, two digits of seconds.
pub proof fn lemma_clock_text_shape(minutes: nat, seconds: nat)
    requires
        minutes < 100,
        seconds < 60,
    ensures
        clock_text(minutes, seconds) == seq![
            digit_char(minutes / 10),
            digit_char(minutes % 10),
            ':',
            digit_char(seconds / 10),
            digit_char(seconds % 10),
        ],
{
    lemma_two_digits(minutes);
    lemma_two_digits(seconds);
    assert(clock_text(minutes, seconds) =~= seq![
        digit_char(minutes / 10),
        digit_char(minutes % 10),
        ':',
        digit_char(seconds / 10),
        digit_char(seconds % 10),
    ]);
}

impl Duration {
    /// The seconds part is a proper clock value, so that the pair is the
    /// only one that stands for its total.
    pub open spec fn wf(self) -> bool {
        self.seconds < 60
    }

    /// The duration of `minutes` whole minutes.
    pub open spec fn of_minutes(minutes: u64) -> Duration {
        Duration { minutes, seconds: 0 }
    }

    /// The total of a well-formed duration fixes its minutes and its
    /// seconds, so that no two well-formed durations have the same view.
    pub proof fn lemma_view_fixes_parts(self)
        requires
            self.wf(),
        ensures
            self.minutes == self@ / 60,
            self.seconds == self@ % 60,
    {
    }

    /// The duration made of `minutes` and `seconds` as given.
    pub fn new(minutes: u64, seconds: u64) -> (d: Duration)
        ensures
            d.minutes == minutes,
            d.seconds == seconds,
    {
        Duration { minutes, seconds }
    }

    /// The duration of `minutes` whole minutes.
    pub fn from_minutes(minutes: u64) -> (d: Duration)
        ensures
            d == Duration::of_minutes(minutes),
            d.wf(),
            d@ == minutes * 60,
    {
        Duration { minutes, seconds: 0 }
    }

    /// Whether no time is left.
    pub fn is_zero(&self) -> (z: bool)
        ensures
            z == (self@ == 0),
    {
        self.minutes == 0 && self.seconds == 0
    }

    /// One second less, borrowing sixty seconds from the minutes when the
    /// seconds run out, and staying at zero once there.
    pub fn tick_down(&self) -> (d: Duration)
        ensures
            d@ == if self@ == 0 { 0 } else { self@ - 1 },
            self.wf() ==> d.wf(),
    {
        if self.seconds > 0 {
            Duration { minutes: self.minutes, seconds: self.seconds - 1 }
        } else if self.minutes > 0 {
            Duration { minutes: self.minutes - 1, seconds: 59 }
        } else {
            Duration { minutes: 0, seconds: 0 }
        }
    }

    /// The clock face `MM:SS` of this duration.
    pub fn clock(&self) -> (s: String)
        ensures
            s@ == clock_text(self.minutes as nat, self.seconds as nat),
            self.wf() ==> s@ == clock_text(self@ / 60, self@ % 60),
    {
        proof {
            reveal_strlit(":");
        }
        let mut s = String::new();
        push_two_digits(&mut s, self.minutes);
        s.append(":");
        push_two_digits(&mut s, self.seconds);
        s
    }
}

} // verus!
