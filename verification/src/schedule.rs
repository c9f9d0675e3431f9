//! The schedule aggregator: folds the expanded events whose name matches the
//! target into the weekly profile (last write per weekday wins) and derives
//! the presence state relative to "now". A pure fold — its whole result is
//! pinned by `aggregate_post`, so two runs on the same inputs agree.

use vstd::prelude::*;
use vstd::arithmetic::div_mod::lemma_mod_multiples_vanish;
use crate::clock::{
    index_of_weekday, local_instant, local_to_utc, weekday_from_index, weekday_index,
    weekday_of_day, Weekday, INSTANT_BOUND, MILLIS_PER_DAY,
};
use crate::ical::{item_wf, CalendarItem};
use crate::slack::{day_entry, time_of_tod, DndDays, DndEnabled, Time, UserPrefs, UserProfile};

verus! {

/// The derived presence facts: whether "now" lies inside a matching
/// occurrence, and otherwise the soonest future occurrence start (Unix
/// milliseconds). The two are mutually exclusive: when `currently_busy`
/// holds, no next start is surfaced.
#[derive(PartialEq, Eq, Debug)]
pub struct PresenceState {
    pub currently_busy: bool,
    pub next_busy_start: Option<i64>,
}

/// The occurrences of one event: (local day, start time of day, duration).
pub open spec fn event_occurrences(e: CalendarItem) -> Seq<(int, int, int)> {
    e.dates@.map_values(|d: i64| (d as int, e.time as int, e.length as int))
}

/// The occurrences of the events whose name equals the target, in input
/// order; every other event is ignored.
pub open spec fn matching_occurrences(events: Seq<CalendarItem>, name: Seq<char>) -> Seq<
    (int, int, int),
>
    decreases events.len(),
{
    if events.len() == 0 {
        Seq::empty()
    } else {
        let rest = matching_occurrences(events.drop_last(), name);
        if events.last().name@ == name {
            rest + event_occurrences(events.last())
        } else {
            rest
        }
    }
}

/// End time of day: the start time of day plus the duration, wrapped around
/// midnight (durations are not clamped to the day).
pub open spec fn end_tod(tod: int, len: int) -> int {
    (tod + len) % (MILLIS_PER_DAY as int)
}

/// The interval the profile holds for weekday index `w` after folding `occs`
/// in order: the interval of the last occurrence that lands on `w`.
pub open spec fn profile_entry(occs: Seq<(int, int, int)>, w: int) -> Option<(int, int)>
    decreases occs.len(),
{
    if occs.len() == 0 {
        None
    } else if weekday_index(occs.last().0) == w {
        Some((occs.last().1, end_tod(occs.last().1, occs.last().2)))
    } else {
        profile_entry(occs.drop_last(), w)
    }
}

/// What one weekday of the built profile shows for a folded entry.
pub open spec fn entry_shown(entry: Option<(int, int)>) -> (DndEnabled, Option<Time>, Option<
    Time,
>) {
    match entry {
        None => (DndEnabled::AllDay, None, None),
        Some(iv) => (DndEnabled::Partial, Some(time_of_tod(iv.0)), Some(time_of_tod(iv.1))),
    }
}

/// Whether the occurrence's absolute interval contains `now`, inclusively on
/// both ends; an occurrence whose local start does not resolve never counts.
pub open spec fn occurrence_current(tz: Seq<char>, o: (int, int, int), now: int) -> bool {
    match local_instant(tz, o.0, o.1) {
        Some(t) => t <= now && now <= t + o.2,
        None => false,
    }
}

pub open spec fn any_current(tz: Seq<char>, occs: Seq<(int, int, int)>, now: int) -> bool
    decreases occs.len(),
{
    if occs.len() == 0 {
        false
    } else {
        occurrence_current(tz, occs.last(), now) || any_current(tz, occs.drop_last(), now)
    }
}

/// The least resolvable occurrence start strictly after `now`.
pub open spec fn next_start(tz: Seq<char>, occs: Seq<(int, int, int)>, now: int) -> Option<int>
    decreases occs.len(),
{
    if occs.len() == 0 {
        None
    } else {
        let rest = next_start(tz, occs.drop_last(), now);
        match local_instant(tz, occs.last().0, occs.last().1) {
            Some(t) => if t > now && (rest is None || t < rest.unwrap()) {
                Some(t)
            } else {
                rest
            },
            None => rest,
        }
    }
}

/// Everything `aggregate` promises of its result, over the matching
/// occurrences of the input.
pub open spec fn aggregate_post(
    events: Seq<CalendarItem>,
    name: Seq<char>,
    now: int,
    tz: Seq<char>,
    prefs: UserPrefs,
    presence: PresenceState,
) -> bool {
    let occs = matching_occurrences(events, name);
    &&& prefs.dnd_enabled == true
    &&& prefs.dnd_days == DndDays::Custom
    &&& forall|w: Weekday| #[trigger]
        day_entry(prefs, w) == entry_shown(profile_entry(occs, index_of_weekday(w)))
    &&& presence.currently_busy == any_current(tz, occs, now)
    &&& (presence.next_busy_start is Some) == (!any_current(tz, occs, now) && next_start(
        tz,
        occs,
        now,
    ) is Some)
    &&& (presence.next_busy_start matches Some(t) ==> next_start(tz, occs, now) == Some(t as int))
}

/// End time of day of an occurrence, wrapped around midnight.
pub fn end_tod_millis(tod: i64, len: i64) -> (r: i64)
    requires
        0 <= tod < MILLIS_PER_DAY,
        -2 * (INSTANT_BOUND as int) < len < 2 * (INSTANT_BOUND as int),
    ensures
        r == end_tod(tod as int, len as int),
        0 <= r < MILLIS_PER_DAY,
{
    let sum: i64 = tod + len;
    let shifted: i64 = sum + 43_200_000_000_000_000;
    let r = shifted % MILLIS_PER_DAY;
    proof {
        lemma_mod_multiples_vanish(500_000_000, sum as int, MILLIS_PER_DAY as int);
    }
    r
}

/// Folds the expanded events into the weekly profile and the presence state.
/// Only events whose name equals the target, exactly and case-sensitively,
/// count. Per occurrence the profile records (start time of day, start plus
/// duration) on the occurrence's weekday, a later occurrence overwriting an
/// earlier one on the same weekday. "Currently busy" holds when some
/// occurrence's absolute interval contains `now`; otherwise the soonest
/// occurrence start strictly after `now`, if any, is surfaced — never both.
pub fn aggregate(events: &Vec<CalendarItem>, work_event: &String, now: i64, tz: &str) -> (r: (
    UserPrefs,
    PresenceState,
))
    requires
        forall|i: int| 0 <= i < events@.len() ==> item_wf(#[trigger] events@[i]),
    ensures
        aggregate_post(events@, work_event@, now as int, tz@, r.0, r.1),
        r.1.currently_busy ==> r.1.next_busy_start is None,
{
    let ghost name: Seq<char> = work_event@;
    let mut prefs = UserPrefs::new();
    let mut current: bool = false;
    let mut next: Option<i64> = None;
    let mut i: usize = 0;
    proof {
        assert(events@.take(0) =~= Seq::<CalendarItem>::empty());
    }
    while i < events.len()
        invariant
            0 <= i <= events@.len(),
            forall|k: int| 0 <= k < events@.len() ==> item_wf(#[trigger] events@[k]),
            name == work_event@,
            prefs.dnd_enabled == true,
            prefs.dnd_days == DndDays::Custom,
            forall|w: Weekday| #[trigger]
                day_entry(prefs, w) == entry_shown(
                    profile_entry(
                        matching_occurrences(events@.take(i as int), name),
                        index_of_weekday(w),
                    ),
                ),
            current == any_current(tz@, matching_occurrences(events@.take(i as int), name), now as int),
            (next is Some) == (next_start(
                tz@,
                matching_occurrences(events@.take(i as int), name),
                now as int,
            ) is Some),
            next matches Some(t) ==> next_start(
                tz@,
                matching_occurrences(events@.take(i as int), name),
                now as int,
            ) == Some(t as int),
        decreases events@.len() - i,
    {
        proof {
            assert(events@.take(i as int + 1).drop_last() =~= events@.take(i as int));
            assert(events@.take(i as int + 1).last() == events@[i as int]);
        }
        let e = &events[i];
        if e.name == *work_event {
            let ghost base = matching_occurrences(events@.take(i as int), name);
            let ghost eoccs = event_occurrences(events@[i as int]);
            let from = Time::from_millis(e.time);
            let to = Time::from_millis(end_tod_millis(e.time, e.length));
            let mut j: usize = 0;
            proof {
                assert(eoccs.take(0) =~= Seq::<(int, int, int)>::empty());
                assert(base + eoccs.take(0) =~= base);
            }
            while j < e.dates.len()
                invariant
                    0 <= j <= e.dates@.len(),
                    e == &events@[i as int],
                    0 <= i < events@.len(),
                    forall|k: int| 0 <= k < events@.len() ==> item_wf(#[trigger] events@[k]),
                    eoccs == event_occurrences(events@[i as int]),
                    from == time_of_tod(e.time as int),
                    to == time_of_tod(end_tod(e.time as int, e.length as int)),
                    prefs.dnd_enabled == true,
                    prefs.dnd_days == DndDays::Custom,
                    forall|w: Weekday| #[trigger]
                        day_entry(prefs, w) == entry_shown(
                            profile_entry(base + eoccs.take(j as int), index_of_weekday(w)),
                        ),
                    current == any_current(tz@, base + eoccs.take(j as int), now as int),
                    (next is Some) == (next_start(tz@, base + eoccs.take(j as int), now as int) is Some),
                    next matches Some(t) ==> next_start(tz@, base + eoccs.take(j as int), now as int)
                        == Some(t as int),
                decreases e.dates@.len() - j,
            {
                let d = e.dates[j];
                let ghost occ: (int, int, int) = (d as int, e.time as int, e.length as int);
                proof {
                    assert(eoccs[j as int] == occ);
                    assert(eoccs.take(j as int + 1) =~= eoccs.take(j as int).push(occ));
                    assert((base + eoccs.take(j as int + 1)) =~= (base + eoccs.take(
                        j as int,
                    )).push(occ));
                    assert((base + eoccs.take(j as int)).push(occ).drop_last() =~= (base
                        + eoccs.take(j as int)));
                }
                let w = weekday_of_day(d);
                proof {
                    assert(index_of_weekday(weekday_from_index(weekday_index(d as int)))
                        == weekday_index(d as int));
                }
                prefs.set_day(w, from, to);
                match local_to_utc(tz, d, e.time) {
                    Some(t) => {
                        let is_next = match next {
                            Some(n) => t > now && t < n,
                            None => t > now,
                        };
                        if is_next {
                            next = Some(t);
                        }
                        if t <= now && t + e.length >= now {
                            current = true;
                        }
                    }
                    None => {}
                }
                j += 1;
            }
            proof {
                assert(eoccs.take(e.dates@.len() as int) =~= eoccs);
                assert(matching_occurrences(events@.take(i as int + 1), name) == base + eoccs);
            }
        } else {
            proof {
                assert(matching_occurrences(events@.take(i as int + 1), name)
                    == matching_occurrences(events@.take(i as int), name));
            }
        }
        i += 1;
    }
    proof {
        assert(events@.take(events@.len() as int) =~= events@);
    }
    let presence = if current {
        PresenceState { currently_busy: true, next_busy_start: None }
    } else {
        PresenceState { currently_busy: false, next_busy_start: next }
    };
    (prefs, presence)
}

/// The expiry the published status carries for a next busy start: its Unix
/// seconds, zero for an instant before the epoch.
pub open spec fn expiry_seconds(t: int) -> int {
    if t >= 0 {
        t / 1000
    } else {
        0
    }
}

/// The status to publish for a presence state: the cleared status while busy,
/// the out-of-office status until the next busy start otherwise, nothing when
/// no next start exists — mirroring the mutually exclusive presence messages.
pub fn status_for(presence: &PresenceState) -> (r: Option<UserProfile>)
    ensures
        presence.currently_busy ==> ({
            &&& r matches Some(p)
            &&& p.status_expiration == 0
            &&& p.status_emoji@ == ""@
            &&& p.status_text@ == ""@
        }),
        !presence.currently_busy ==> ((r is Some) == (presence.next_busy_start is Some)),
        !presence.currently_busy ==> (presence.next_busy_start matches Some(t) ==> ({
            &&& r matches Some(p)
            &&& p.status_emoji@ == ":no_entry:"@
            &&& p.status_text@ == "Out of office"@
            &&& p.status_expiration == expiry_seconds(t as int)
        })),
{
    if presence.currently_busy {
        Some(UserProfile::in_office())
    } else {
        match presence.next_busy_start {
            Some(t) => {
                let secs: u64 = if t >= 0 {
                    (t / 1000) as u64
                } else {
                    0
                };
                Some(UserProfile::out_of_office(secs))
            }
            None => None,
        }
    }
}

/// The aggregator is a pure function of its inputs: any two results that meet
/// its contract for the same event list, target name, "now" and timezone are
/// equal, profile and presence state alike.
pub proof fn lemma_aggregate_deterministic(
    events: Seq<CalendarItem>,
    name: Seq<char>,
    now: int,
    tz: Seq<char>,
    p1: UserPrefs,
    s1: PresenceState,
    p2: UserPrefs,
    s2: PresenceState,
)
    requires
        aggregate_post(events, name, now, tz, p1, s1),
        aggregate_post(events, name, now, tz, p2, s2),
    ensures
        p1 == p2,
        s1 == s2,
{
    assert(day_entry(p1, Weekday::Mon) == day_entry(p2, Weekday::Mon));
    assert(day_entry(p1, Weekday::Tue) == day_entry(p2, Weekday::Tue));
    assert(day_entry(p1, Weekday::Wed) == day_entry(p2, Weekday::Wed));
    assert(day_entry(p1, Weekday::Thu) == day_entry(p2, Weekday::Thu));
    assert(day_entry(p1, Weekday::Fri) == day_entry(p2, Weekday::Fri));
    assert(day_entry(p1, Weekday::Sat) == day_entry(p2, Weekday::Sat));
    assert(day_entry(p1, Weekday::Sun) == day_entry(p2, Weekday::Sun));
    assert(p1 == p2);
    let occs = matching_occurrences(events, name);
    assert(s1.currently_busy == s2.currently_busy);
    if s1.next_busy_start is Some {
        let t1 = s1.next_busy_start.unwrap();
        let t2 = s2.next_busy_start.unwrap();
        assert(next_start(tz, occs, now) == Some(t1 as int));
        assert(next_start(tz, occs, now) == Some(t2 as int));
        assert(t1 == t2);
    }
    assert(s1 == s2);
}

/// The overwrite rule: of two matching occurrences on the same weekday, the
/// one processed later determines the profile's interval for that weekday —
/// feeding them in either order makes either interval the outcome, whatever
/// came before them.
pub proof fn lemma_overwrite(
    prefix: Seq<(int, int, int)>,
    a: (int, int, int),
    b: (int, int, int),
    w: int,
)
    requires
        weekday_index(a.0) == w,
        weekday_index(b.0) == w,
    ensures
        profile_entry(prefix.push(a).push(b), w) == Some((b.1, end_tod(b.1, b.2))),
        profile_entry(prefix.push(b).push(a), w) == Some((a.1, end_tod(a.1, a.2))),
{
    assert(prefix.push(a).push(b).last() == b);
    assert(prefix.push(b).push(a).last() == a);
}

} // verus!
