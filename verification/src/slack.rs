//! The weekly notification profile and the presence status in the form the
//! messaging service's API takes them: one optional busy interval per weekday,
//! last write per weekday wins, plus a status that is either cleared or
//! "out of office until ...".

use vstd::prelude::*;
use crate::clock::{Weekday, MILLIS_PER_DAY};

verus! {

/// A wall-clock time of day, to the minute.
#[derive(Clone, Copy, PartialEq, Eq, Structural, Debug)]
pub struct Time {
    pub hours: u8,
    pub minutes: u8,
}

/// The wall-clock time that a count of milliseconds from midnight shows.
pub open spec fn time_of_tod(tod: int) -> Time {
    Time { hours: (tod / 3_600_000) as u8, minutes: ((tod / 60_000) % 60) as u8 }
}

pub open spec fn digit_char(d: int) -> char {
    if d == 0 {
        '0'
    } else if d == 1 {
        '1'
    } else if d == 2 {
        '2'
    } else if d == 3 {
        '3'
    } else if d == 4 {
        '4'
    } else if d == 5 {
        '5'
    } else if d == 6 {
        '6'
    } else if d == 7 {
        '7'
    } else if d == 8 {
        '8'
    } else {
        '9'
    }
}

/// The two-digit "HH:MM" rendering of a time.
pub open spec fn hhmm_chars(t: Time) -> Seq<char> {
    seq![
        digit_char(t.hours as int / 10),
        digit_char(t.hours as int % 10),
        ':',
        digit_char(t.minutes as int / 10),
        digit_char(t.minutes as int % 10),
    ]
}

fn digit_str(d: u8) -> (r: &'static str)
    requires
        d < 10,
    ensures
        r@ == seq![digit_char(d as int)],
{
    let r: &'static str = if d == 0 {
        "0"
    } else if d == 1 {
        "1"
    } else if d == 2 {
        "2"
    } else if d == 3 {
        "3"
    } else if d == 4 {
        "4"
    } else if d == 5 {
        "5"
    } else if d == 6 {
        "6"
    } else if d == 7 {
        "7"
    } else if d == 8 {
        "8"
    } else {
        "9"
    };
    proof {
        reveal_strlit("0");
        reveal_strlit("1");
        reveal_strlit("2");
        reveal_strlit("3");
        reveal_strlit("4");
        reveal_strlit("5");
        reveal_strlit("6");
        reveal_strlit("7");
        reveal_strlit("8");
        reveal_strlit("9");
        assert(r@ =~= seq![digit_char(d as int)]);
    }
    r
}

impl Time {
    /// The time of day for a count of milliseconds from midnight.
    pub fn from_millis(tod: i64) -> (r: Time)
        requires
            0 <= tod < MILLIS_PER_DAY,
        ensures
            r == time_of_tod(tod as int),
    {
        Time { hours: (tod / 3_600_000) as u8, minutes: ((tod / 60_000) % 60) as u8 }
    }

    /// The "HH:MM" text of the time, two digits each, as the messaging
    /// service's API writes times of day.
    pub fn hhmm(&self) -> (r: String)
        requires
            self.hours < 100,
            self.minutes < 100,
        ensures
            r@ == hhmm_chars(*self),
    {
        let mut s = String::new();
        s.append(digit_str(self.hours / 10));
        s.append(digit_str(self.hours % 10));
        s.append(":");
        s.append(digit_str(self.minutes / 10));
        s.append(digit_str(self.minutes % 10));
        proof {
            reveal_strlit(":");
            assert(s@ =~= hhmm_chars(*self));
        }
        s
    }
}

#[derive(Clone, Copy, PartialEq, Eq, Structural, Debug)]
pub enum DndDays {
    EveryDay,
    Weekdays,
    Custom,
}

#[derive(Clone, Copy, PartialEq, Eq, Structural, Debug)]
pub enum DndEnabled {
    Partial,
    AllDay,
}

/// The weekly do-not-disturb profile: a global switch, the day-set mode, and
/// per weekday an enablement mode with an optional interval.
#[derive(PartialEq, Eq, Debug)]
pub struct UserPrefs {
    pub dnd_enabled: bool,
    pub dnd_days: DndDays,
    pub dnd_before_monday: Option<Time>,
    pub dnd_after_monday: Option<Time>,
    pub dnd_enabled_monday: DndEnabled,
    pub dnd_before_tuesday: Option<Time>,
    pub dnd_after_tuesday: Option<Time>,
    pub dnd_enabled_tuesday: DndEnabled,
    pub dnd_before_wednesday: Option<Time>,
    pub dnd_after_wednesday: Option<Time>,
    pub dnd_enabled_wednesday: DndEnabled,
    pub dnd_before_thursday: Option<Time>,
    pub dnd_after_thursday: Option<Time>,
    pub dnd_enabled_thursday: DndEnabled,
    pub dnd_before_friday: Option<Time>,
    pub dnd_after_friday: Option<Time>,
    pub dnd_enabled_friday: DndEnabled,
    pub dnd_before_saturday: Option<Time>,
    pub dnd_after_saturday: Option<Time>,
    pub dnd_enabled_saturday: DndEnabled,
    pub dnd_before_sunday: Option<Time>,
    pub dnd_after_sunday: Option<Time>,
    pub dnd_enabled_sunday: DndEnabled,
}

/// What the profile holds for one weekday: the enablement mode and the
/// interval bounds.
pub open spec fn day_entry(p: UserPrefs, w: Weekday) -> (DndEnabled, Option<Time>, Option<Time>) {
    match w {
        Weekday::Mon => (p.dnd_enabled_monday, p.dnd_before_monday, p.dnd_after_monday),
        Weekday::Tue => (p.dnd_enabled_tuesday, p.dnd_before_tuesday, p.dnd_after_tuesday),
        Weekday::Wed => (p.dnd_enabled_wednesday, p.dnd_before_wednesday, p.dnd_after_wednesday),
        Weekday::Thu => (p.dnd_enabled_thursday, p.dnd_before_thursday, p.dnd_after_thursday),
        Weekday::Fri => (p.dnd_enabled_friday, p.dnd_before_friday, p.dnd_after_friday),
        Weekday::Sat => (p.dnd_enabled_saturday, p.dnd_before_saturday, p.dnd_after_saturday),
        Weekday::Sun => (p.dnd_enabled_sunday, p.dnd_before_sunday, p.dnd_after_sunday),
    }
}

impl UserPrefs {
    /// A fresh profile: do-not-disturb on, a custom day set, every weekday
    /// still unrestricted.
    pub fn new() -> (r: UserPrefs)
        ensures
            r.dnd_enabled == true,
            r.dnd_days == DndDays::Custom,
            forall|w: Weekday| #[trigger]
                day_entry(r, w) == (DndEnabled::AllDay, None::<Time>, None::<Time>),
    {
        UserPrefs {
            dnd_enabled: true,
            dnd_days: DndDays::Custom,
            dnd_before_monday: None,
            dnd_after_monday: None,
            dnd_enabled_monday: DndEnabled::AllDay,
            dnd_before_tuesday: None,
            dnd_after_tuesday: None,
            dnd_enabled_tuesday: DndEnabled::AllDay,
            dnd_before_wednesday: None,
            dnd_after_wednesday: None,
            dnd_enabled_wednesday: DndEnabled::AllDay,
            dnd_before_thursday: None,
            dnd_after_thursday: None,
            dnd_enabled_thursday: DndEnabled::AllDay,
            dnd_before_friday: None,
            dnd_after_friday: None,
            dnd_enabled_friday: DndEnabled::AllDay,
            dnd_before_saturday: None,
            dnd_after_saturday: None,
            dnd_enabled_saturday: DndEnabled::AllDay,
            dnd_before_sunday: None,
            dnd_after_sunday: None,
            dnd_enabled_sunday: DndEnabled::AllDay,
        }
    }

    /// Records the busy interval for one weekday. The other weekdays and the
    /// global switches keep their values; a later write to the same weekday
    /// overwrites an earlier one.
    pub fn set_day(&mut self, day: Weekday, from: Time, to: Time)
        ensures
            forall|w: Weekday| #[trigger]
                day_entry(*final(self), w) == if w == day {
                    (DndEnabled::Partial, Some(from), Some(to))
                } else {
                    day_entry(*old(self), w)
                },
            final(self).dnd_enabled == old(self).dnd_enabled,
            final(self).dnd_days == old(self).dnd_days,
    {
        match day {
            Weekday::Mon => {
                self.dnd_enabled_monday = DndEnabled::Partial;
                self.dnd_before_monday = Some(from);
                self.dnd_after_monday = Some(to);
            }
            Weekday::Tue => {
                self.dnd_enabled_tuesday = DndEnabled::Partial;
                self.dnd_before_tuesday = Some(from);
                self.dnd_after_tuesday = Some(to);
            }
            Weekday::Wed => {
                self.dnd_enabled_wednesday = DndEnabled::Partial;
                self.dnd_before_wednesday = Some(from);
                self.dnd_after_wednesday = Some(to);
            }
            Weekday::Thu => {
                self.dnd_enabled_thursday = DndEnabled::Partial;
                self.dnd_before_thursday = Some(from);
                self.dnd_after_thursday = Some(to);
            }
            Weekday::Fri => {
                self.dnd_enabled_friday = DndEnabled::Partial;
                self.dnd_before_friday = Some(from);
                self.dnd_after_friday = Some(to);
            }
            Weekday::Sat => {
                self.dnd_enabled_saturday = DndEnabled::Partial;
                self.dnd_before_saturday = Some(from);
                self.dnd_after_saturday = Some(to);
            }
            Weekday::Sun => {
                self.dnd_enabled_sunday = DndEnabled::Partial;
                self.dnd_before_sunday = Some(from);
                self.dnd_after_sunday = Some(to);
            }
        }
    }
}

/// The status the messaging service shows for the user.
#[derive(PartialEq, Eq, Debug)]
pub struct UserProfile {
    pub status_emoji: String,
    pub status_expiration: u64,
    pub status_text: String,
}

impl UserProfile {
    /// The out-of-office status, shown until the given instant (Unix seconds).
    pub fn out_of_office(until: u64) -> (r: UserProfile)
        ensures
            r.status_emoji@ == ":no_entry:"@,
            r.status_expiration == until,
            r.status_text@ == "Out of office"@,
    {
        UserProfile {
            status_emoji: String::from_str(":no_entry:"),
            status_expiration: until,
            status_text: String::from_str("Out of office"),
        }
    }

    /// The cleared status: no emoji, no text, no expiry.
    pub fn in_office() -> (r: UserProfile)
        ensures
            r.status_emoji@ == ""@,
            r.status_expiration == 0,
            r.status_text@ == ""@,
    {
        UserProfile {
            status_emoji: String::from_str(""),
            status_expiration: 0,
            status_text: String::from_str(""),
        }
    }
}

} // verus!
