//! The time of day that stamps each chat message.
use vstd::prelude::*;

verus! {

/// The decimal digit `d` (below ten) as a character.
pub open spec fn digit_char(d: nat) -> char {
    (48 + d) as char
}

/// `n` (below one hundred) as two decimal digits, with a leading zero below ten.
pub open spec fn two_digits(n: nat) -> Seq<char> {
    seq![digit_char(n / 10), digit_char(n % 10)]
}

/// The text `HH:MM:SS` of a time of day.
pub open spec fn clock_text(hour: nat, minute: nat, second: nat) -> Seq<char> {
    two_digits(hour) + seq![':'] + two_digits(minute) + seq![':'] + two_digits(second)
}

/// A time of day, to the second, on a 24-hour clock.
#[derive(Clone, Copy, Debug)]
pub struct Clock {
    hour: u32,
    minute: u32,
    second: u32,
}

/// What a [`Clock`] stands for.
pub struct ClockView {
    pub hour: nat,
    pub minute: nat,
    pub second: nat,
}

impl View for Clock {
    type V = ClockView;

    closed spec fn view(&self) -> ClockView {
        ClockView { hour: self.hour as nat, minute: self.minute as nat, second: self.second as nat }
    }
}

impl ClockView {
    /// The time as `HH:MM:SS`.
    pub open spec fn text(self) -> Seq<char> {
        clock_text(self.hour, self.minute, self.second)
    }
}

/// Whether the three numbers are a time of day.
pub open spec fn is_time_of_day(hour: int, minute: int, second: int) -> bool {
    0 <= hour < 24 && 0 <= minute < 60 && 0 <= second < 60
}

impl Clock {
    #[verifier::type_invariant]
    spec fn inv(self) -> bool {
        is_time_of_day(self.hour as int, self.minute as int, self.second as int)
    }

    /// The clock at `hour:minute:second`, or `None` where that is no time of day.
    pub fn new(hour: u32, minute: u32, second: u32) -> (r: Option<Clock>)
        ensures
            r is Some <==> is_time_of_day(hour as int, minute as int, second as int),
            r matches Some(c) ==> c@ == (ClockView {
                hour: hour as nat,
                minute: minute as nat,
                second: second as nat,
            }),
    {
        if hour < 24 && minute < 60 && second < 60 {
            Some(Clock { hour, minute, second })
        } else {
            None
        }
    }

    /// The time as `HH:MM:SS`, with leading zeros.
    pub fn timestamp(&self) -> (r: String)
        ensures
            r@ == self@.text(),
    {
        proof {
            use_type_invariant(self);
        }
        format_time_of_day(self.hour, self.minute, self.second)
    }
}

/// Calls `chrono::NaiveTime::from_hms_opt` and formats the time with `"%H:%M:%S"`.
/// Claimed of chrono: the time exists for these arguments, and `%H`, `%M` and `%S`
/// print the hour, minute and second zero-padded to two digits.
#[verifier::external_body]
fn format_time_of_day(hour: u32, minute: u32, second: u32) -> (r: String)
    requires
        is_time_of_day(hour as int, minute as int, second as int),
    ensures
        r@ == clock_text(hour as nat, minute as nat, second as nat),
{
    match chrono::NaiveTime::from_hms_opt(hour, minute, second) {
        Some(t) => t.format("%H:%M:%S").to_string(),
        None => String::new(),
    }
}

} // verus!
