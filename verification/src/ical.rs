//! Event parsing and recurrence expansion. The iCalendar grammar and the
//! recurrence-rule engine are the icalendar and rrule crates' work, reached
//! through trusted wrappers; everything around them — field resolution, the
//! window test for one-off events, the strict window filter for recurring
//! ones, and the shape of the produced records — is verified. Parsing is a
//! pure function of the document text, so the records a document denotes are
//! named (`doc_components`) and `get_events` is pinned to the fold of the
//! normalization rules over them; only the recurrence enumeration stays
//! unnamed, because rrule resolves unzoned date values against the machine's
//! local timezone.

use vstd::prelude::*;
use chrono::TimeZone;
use icalendar::Component;
use crate::clock::{
    civil_parts, local_instant, local_to_utc, utc_to_local, DAY_BOUND, INSTANT_BOUND,
    MILLIS_PER_DAY, SAFE_INSTANT_BOUND,
};

verus! {

#[verifier::external_type_specification]
#[verifier::external_body]
pub struct ExCalendar(icalendar::Calendar);

#[verifier::external_type_specification]
#[verifier::external_body]
pub struct ExCalendarComponent(icalendar::CalendarComponent);

/// One start or end field brought down to plain values.
#[derive(Clone, Copy, PartialEq, Eq, Structural, Debug)]
pub enum FieldStamp {
    /// A bare date: its day count from the common era.
    AllDay(i64),
    /// A date-time resolved to an absolute instant, in Unix milliseconds.
    At(i64),
    /// A date-time whose absolute instant cannot be resolved.
    Unresolvable,
}

/// The numbers a start or end field may carry stay inside the calendar
/// bounds.
pub open spec fn stamp_bounded(f: FieldStamp) -> bool {
    match f {
        FieldStamp::AllDay(day) => -DAY_BOUND < day < DAY_BOUND,
        FieldStamp::At(t) => -INSTANT_BOUND < t < INSTANT_BOUND,
        FieldStamp::Unresolvable => true,
    }
}

/// One event's fields as the source document denotes them: the name, the
/// start and end fields as plain stamps, and the RRULE and DTSTART content
/// lines.
pub struct EventRecord {
    pub name: Option<Seq<char>>,
    pub start: Option<FieldStamp>,
    pub end: Option<FieldStamp>,
    pub rule_line: Option<Seq<char>>,
    pub anchor_line: Option<Seq<char>>,
}

/// Whether icalendar accepts the document text as well-formed iCalendar
/// syntax. Parsing is a pure function of the text.
pub uninterp spec fn cal_parses(body: Seq<char>) -> bool;

/// The components a well-formed document denotes, in document order: an
/// event's record, or `None` for a component of another kind. A function of
/// the text alone.
pub uninterp spec fn doc_components(body: Seq<char>) -> Seq<Option<EventRecord>>;

/// What a parsed `Calendar` value holds: per component, the event record it
/// carries, or `None` for a non-event component.
pub uninterp spec fn calendar_model(c: icalendar::Calendar) -> Seq<Option<EventRecord>>;

/// Relies on icalendar's `Calendar: FromStr`, a pure function of the text
/// (`unfold` plus a nom grammar, no environment): whether the document
/// parses, and that the parsed value holds exactly the records the document
/// denotes.
#[verifier::external_body]
fn parse_calendar(body: &str) -> (r: Result<icalendar::Calendar, String>)
    ensures
        (r is Ok) == cal_parses(body@),
        r matches Ok(c) ==> calendar_model(c) == doc_components(body@),
{
    body.parse()
}

/// Relies on the public `components` field of `icalendar::Calendar`: how many
/// components the parsed document holds.
#[verifier::external_body]
fn component_count(c: &icalendar::Calendar) -> (n: usize)
    ensures
        n == calendar_model(*c).len(),
{
    c.components.len()
}

/// Relies on `CalendarComponent::as_event`: whether component `i` is an
/// event.
#[verifier::external_body]
fn component_is_event(c: &icalendar::Calendar, i: usize) -> (r: bool)
    requires
        i < calendar_model(*c).len(),
    ensures
        r == (calendar_model(*c)[i as int] is Some),
{
    c.components[i].as_event().is_some()
}

/// Relies on `Component::get_summary` of event `i`: its SUMMARY property,
/// the event's name.
#[verifier::external_body]
fn event_name(c: &icalendar::Calendar, i: usize) -> (r: Option<String>)
    requires
        i < calendar_model(*c).len(),
        calendar_model(*c)[i as int] is Some,
    ensures
        (r is Some) == (calendar_model(*c)[i as int].unwrap().name is Some),
        r matches Some(s) ==> calendar_model(*c)[i as int].unwrap().name == Some(s@),
{
    c.components[i].as_event().unwrap().get_summary().map(|s| s.to_string())
}

/// Relies on `Component::get_start`, `CalendarDateTime::try_into_utc` and
/// chrono's `Datelike::num_days_from_ce`: event `i`'s DTSTART field as a
/// plain stamp — a bare date as its day count, a date-time as its instant,
/// a floating or unresolvable date-time as `Unresolvable`; `None` when the
/// event has no parseable DTSTART. chrono's calendar range keeps the numbers
/// inside the stated bounds.
#[verifier::external_body]
fn event_start_stamp(c: &icalendar::Calendar, i: usize) -> (r: Option<FieldStamp>)
    requires
        i < calendar_model(*c).len(),
        calendar_model(*c)[i as int] is Some,
    ensures
        r == calendar_model(*c)[i as int].unwrap().start,
        r matches Some(f) ==> stamp_bounded(f),
{
    match c.components[i].as_event().unwrap().get_start() {
        None => None,
        Some(icalendar::DatePerhapsTime::Date(d)) => Some(
            FieldStamp::AllDay(i64::from(chrono::Datelike::num_days_from_ce(&d))),
        ),
        Some(icalendar::DatePerhapsTime::DateTime(cdt)) => match cdt.try_into_utc() {
            Some(u) => Some(FieldStamp::At(u.timestamp_millis())),
            None => Some(FieldStamp::Unresolvable),
        },
    }
}

/// Relies on `Component::get_end` and the same conversions as
/// `event_start_stamp`: event `i`'s DTEND field as a plain stamp.
#[verifier::external_body]
fn event_end_stamp(c: &icalendar::Calendar, i: usize) -> (r: Option<FieldStamp>)
    requires
        i < calendar_model(*c).len(),
        calendar_model(*c)[i as int] is Some,
    ensures
        r == calendar_model(*c)[i as int].unwrap().end,
        r matches Some(f) ==> stamp_bounded(f),
{
    match c.components[i].as_event().unwrap().get_end() {
        None => None,
        Some(icalendar::DatePerhapsTime::Date(d)) => Some(
            FieldStamp::AllDay(i64::from(chrono::Datelike::num_days_from_ce(&d))),
        ),
        Some(icalendar::DatePerhapsTime::DateTime(cdt)) => match cdt.try_into_utc() {
            Some(u) => Some(FieldStamp::At(u.timestamp_millis())),
            None => Some(FieldStamp::Unresolvable),
        },
    }
}

/// Relies on `Component::properties` and icalendar's `Property`-to-`String`
/// rendering: event `i`'s RRULE property as a full content line (with its
/// parameters and trailing line break).
#[verifier::external_body]
fn event_rule_line(c: &icalendar::Calendar, i: usize) -> (r: Option<String>)
    requires
        i < calendar_model(*c).len(),
        calendar_model(*c)[i as int] is Some,
    ensures
        (r is Some) == (calendar_model(*c)[i as int].unwrap().rule_line is Some),
        r matches Some(s) ==> calendar_model(*c)[i as int].unwrap().rule_line == Some(s@),
{
    match Component::properties(c.components[i].as_event().unwrap()).get("RRULE") {
        Some(p) => p.clone().try_into().ok(),
        None => None,
    }
}

/// Relies on `Component::properties` and the same rendering: event `i`'s
/// DTSTART property as a full content line, the anchor a recurrence rule
/// must be paired with.
#[verifier::external_body]
fn event_anchor_line(c: &icalendar::Calendar, i: usize) -> (r: Option<String>)
    requires
        i < calendar_model(*c).len(),
        calendar_model(*c)[i as int] is Some,
    ensures
        (r is Some) == (calendar_model(*c)[i as int].unwrap().anchor_line is Some),
        r matches Some(s) ==> calendar_model(*c)[i as int].unwrap().anchor_line == Some(s@),
{
    match Component::properties(c.components[i].as_event().unwrap()).get("DTSTART") {
        Some(p) => p.clone().try_into().ok(),
        None => None,
    }
}

/// Relies on rrule's `RRuleSet: FromStr` and
/// `RRuleSet::after`/`before`/`all_unchecked`: parses the rule text and
/// enumerates its occurrences with `after` and `before` as inclusive bounds
/// (rrule's `is_in_range`, inclusive on both ends). Neither success nor the
/// instants are a function of the text alone — rrule resolves a date value
/// without `Z` or `TZID` against the machine's local timezone — so the
/// contract states only what holds of every outcome; the verified window
/// filter takes the list as an argument. The instants come non-decreasing:
/// the iterator is a minimum-head merge of the set's chronological rule
/// iterators. The enumeration walks from the rule's own anchor with no step
/// limit, so a parseable rule with a very distant anchor can take
/// arbitrarily long before reaching the window. The
/// bounds must lie inside `SAFE_INSTANT_BOUND`, where rrule's timezone can
/// construct them without panicking.
#[verifier::external_body]
fn expand_rrule(rule: &str, after: i64, before: i64) -> (r: Option<Vec<i64>>)
    requires
        -SAFE_INSTANT_BOUND < after < SAFE_INSTANT_BOUND,
        -SAFE_INSTANT_BOUND < before < SAFE_INSTANT_BOUND,
    ensures
        r matches Some(v) ==> forall|i: int|
            0 <= i < v@.len() ==> after <= #[trigger] v@[i] <= before,
        r matches Some(v) ==> forall|i: int, j: int|
            0 <= i <= j < v@.len() ==> #[trigger] v@[i] <= #[trigger] v@[j],
{
    let set: rrule::RRuleSet = match rule.parse() {
        Ok(s) => s,
        Err(_) => return None,
    };
    let a = rrule::Tz::UTC.timestamp_millis_opt(after).unwrap();
    let b = rrule::Tz::UTC.timestamp_millis_opt(before).unwrap();
    let dates = set.after(a).before(b).all_unchecked();
    Some(dates.iter().map(|d| d.timestamp_millis()).collect())
}

/// One parsed, expanded event: the concrete occurrence dates inside the query
/// window (local calendar days), the shared local start time of day
/// (milliseconds from midnight) and the shared duration (milliseconds).
#[derive(PartialEq, Eq, Debug)]
pub struct CalendarItem {
    pub name: String,
    pub dates: Vec<i64>,
    pub time: i64,
    pub length: i64,
}

pub open spec fn item_wf(item: CalendarItem) -> bool {
    &&& item.dates@.len() > 0
    &&& forall|i: int|
        0 <= i < item.dates@.len() ==> -DAY_BOUND < #[trigger] item.dates@[i] < DAY_BOUND
    &&& 0 <= item.time < MILLIS_PER_DAY
    &&& -2 * (INSTANT_BOUND as int) < item.length < 2 * (INSTANT_BOUND as int)
}

/// A per-component condition that made the component unusable; the component
/// is skipped, the run goes on.
#[derive(Clone, Copy, PartialEq, Eq, Structural, Debug)]
pub enum Diagnostic {
    NotAnEvent,
    MissingName,
    MissingStart,
    UnresolvableStart,
    UnresolvableEnd,
    BadRule,
}

/// The whole document is not well-formed iCalendar syntax; the run fails.
#[derive(Debug)]
pub struct CalendarParseError {
    pub message: String,
}

/// The outcome of handling an event's recurrence-rule lines: the event has
/// none, the rule is unusable (its anchor line is missing or rrule rejects
/// the text), or rrule enumerated these occurrence instants.
#[derive(PartialEq, Eq, Debug)]
pub enum RuleStatus {
    NoRule,
    RuleFailed,
    RuleOccurrences(Vec<i64>),
}

/// The rule outcome as normalization sees it: no rule, a failed rule, or the
/// occurrence instants.
pub open spec fn rule_model(r: RuleStatus) -> Option<Option<Seq<int>>> {
    match r {
        RuleStatus::NoRule => None,
        RuleStatus::RuleFailed => Some(None),
        RuleStatus::RuleOccurrences(v) => Some(Some(v@.map_values(|t: i64| t as int))),
    }
}

/// The occurrence dates of a non-recurring event: its single local start date
/// when its interval overlaps the window, nothing otherwise.
pub open spec fn single_event_days(
    tz: Seq<char>,
    start: int,
    end: int,
    ws: int,
    we: int,
) -> Seq<int> {
    if ws <= end && start <= we {
        match civil_parts(tz, start) {
            Some(p) => seq![p.0],
            None => Seq::empty(),
        }
    } else {
        Seq::empty()
    }
}

/// The local dates of the occurrence instants that lie strictly inside the
/// window, in order; an instant exactly on a boundary is excluded.
pub open spec fn occurrence_days(tz: Seq<char>, occs: Seq<int>, ws: int, we: int) -> Seq<int>
    decreases occs.len(),
{
    if occs.len() == 0 {
        Seq::empty()
    } else {
        let rest = occurrence_days(tz, occs.drop_last(), ws, we);
        let t = occs.last();
        if ws < t && t < we {
            match civil_parts(tz, t) {
                Some(p) => rest.push(p.0),
                None => rest,
            }
        } else {
            rest
        }
    }
}

/// A non-recurring event occurs at most once: it is included, with its single
/// local start date, exactly when its interval overlaps the window,
/// `window_start <= end && start <= window_end`.
pub fn single_occurrence_days(
    tz: &str,
    start: i64,
    end: i64,
    window_start: i64,
    window_end: i64,
) -> (r: Vec<i64>)
    requires
        -SAFE_INSTANT_BOUND < start < SAFE_INSTANT_BOUND,
    ensures
        r@.map_values(|d: i64| d as int) == single_event_days(
            tz@,
            start as int,
            end as int,
            window_start as int,
            window_end as int,
        ),
        (r@.len() > 0) == (window_start <= end && start <= window_end && civil_parts(
            tz@,
            start as int,
        ) is Some),
        forall|i: int| 0 <= i < r@.len() ==> -DAY_BOUND < #[trigger] r@[i] < DAY_BOUND,
{
    let mut r: Vec<i64> = Vec::new();
    if window_start <= end && start <= window_end {
        match utc_to_local(tz, start) {
            Some((day, _tod)) => {
                r.push(day);
            }
            None => {}
        }
    }
    proof {
        assert(r@.map_values(|d: i64| d as int) =~= single_event_days(
            tz@,
            start as int,
            end as int,
            window_start as int,
            window_end as int,
        ));
    }
    r
}

/// The strict window filter: of the given occurrence instants, exactly those
/// strictly between the window bounds are kept, each as its local date, in
/// order — an occurrence exactly on a boundary is excluded. Exact for every
/// occurrence list, whatever enumeration produced it.
pub fn occurrence_days_within(tz: &str, occs: &Vec<i64>, window_start: i64, window_end: i64) -> (r:
    Vec<i64>)
    requires
        -SAFE_INSTANT_BOUND < window_start < SAFE_INSTANT_BOUND,
        -SAFE_INSTANT_BOUND < window_end < SAFE_INSTANT_BOUND,
    ensures
        r@.map_values(|d: i64| d as int) == occurrence_days(
            tz@,
            occs@.map_values(|t: i64| t as int),
            window_start as int,
            window_end as int,
        ),
        forall|i: int| 0 <= i < r@.len() ==> -DAY_BOUND < #[trigger] r@[i] < DAY_BOUND,
{
    let ghost all: Seq<int> = occs@.map_values(|t: i64| t as int);
    let mut days: Vec<i64> = Vec::new();
    let mut i: usize = 0;
    while i < occs.len()
        invariant
            0 <= i <= occs@.len(),
            -SAFE_INSTANT_BOUND < window_start < SAFE_INSTANT_BOUND,
            -SAFE_INSTANT_BOUND < window_end < SAFE_INSTANT_BOUND,
            all == occs@.map_values(|t: i64| t as int),
            days@.map_values(|d: i64| d as int) == occurrence_days(
                tz@,
                all.take(i as int),
                window_start as int,
                window_end as int,
            ),
            forall|j: int| 0 <= j < days@.len() ==> -DAY_BOUND < #[trigger] days@[j] < DAY_BOUND,
        decreases occs@.len() - i,
    {
        let t = occs[i];
        proof {
            assert(all.take(i as int + 1).drop_last() =~= all.take(i as int));
            assert(all.take(i as int + 1).last() == t as int);
        }
        let ghost days_before = days@;
        if window_start < t && t < window_end {
            match utc_to_local(tz, t) {
                Some((day, _tod)) => {
                    days.push(day);
                    proof {
                        assert(days@.map_values(|d: i64| d as int) =~= days_before.map_values(
                            |d: i64| d as int,
                        ).push(day as int));
                    }
                }
                None => {}
            }
        }
        i += 1;
    }
    proof {
        assert(all.take(occs@.len() as int) =~= all);
    }
    days
}

/// The occurrence dates of a recurring event: rrule enumerates the rule's
/// occurrence instants, and the verified filter keeps exactly those strictly
/// between the window bounds, each as its local date. `None` when rrule
/// rejects the rule text. Which instants rrule enumerates depends on the
/// machine for rules with unzoned date values, so only the filter's shape is
/// promised here; `occurrence_days_within` carries the exact law.
pub fn recurring_occurrence_days(tz: &str, rule: &str, window_start: i64, window_end: i64) -> (r:
    Option<Vec<i64>>)
    requires
        -SAFE_INSTANT_BOUND < window_start < SAFE_INSTANT_BOUND,
        -SAFE_INSTANT_BOUND < window_end < SAFE_INSTANT_BOUND,
    ensures
        r matches Some(v) ==> exists|occs: Seq<int>|
            v@.map_values(|d: i64| d as int) == #[trigger] occurrence_days(
                tz@,
                occs,
                window_start as int,
                window_end as int,
            ),
        r matches Some(v) ==> forall|i: int|
            0 <= i < v@.len() ==> -DAY_BOUND < #[trigger] v@[i] < DAY_BOUND,
{
    let occs = match expand_rrule(rule, window_start, window_end) {
        Some(v) => v,
        None => {
            return None;
        }
    };
    let days = occurrence_days_within(tz, &occs, window_start, window_end);
    proof {
        let model = occs@.map_values(|t: i64| t as int);
        assert(days@.map_values(|d: i64| d as int) == occurrence_days(
            tz@,
            model,
            window_start as int,
            window_end as int,
        ));
    }
    Some(days)
}

/// The absolute instant a start or end field denotes: a date-time's own
/// instant, a bare date its local midnight.
pub open spec fn stamp_instant(tz: Seq<char>, f: FieldStamp) -> Option<int> {
    match f {
        FieldStamp::At(t) => Some(t as int),
        FieldStamp::AllDay(d) => local_instant(tz, d as int, 0),
        FieldStamp::Unresolvable => None,
    }
}

/// The absolute instant of a start or end field.
fn stamp_instant_millis(tz: &str, f: FieldStamp) -> (r: Option<i64>)
    ensures
        (r is Some) == (stamp_instant(tz@, f) is Some),
        r matches Some(t) ==> stamp_instant(tz@, f) == Some(t as int),
        stamp_bounded(f) ==> (r matches Some(t) ==> -INSTANT_BOUND < t < INSTANT_BOUND),
{
    match f {
        FieldStamp::At(t) => Some(t),
        FieldStamp::AllDay(d) => local_to_utc(tz, d, 0),
        FieldStamp::Unresolvable => None,
    }
}

/// What normalization decides for one event, over the trusted names: the
/// normalized record's parts (occurrence dates, time of day, duration),
/// `Ok(None)` when no occurrence falls inside the window, or the diagnostic
/// under which the event is skipped. A start instant outside the supported
/// range counts as unresolvable. The missing-name case is decided before this
/// point; `rule` is the rule outcome as `rule_model` renders it.
pub open spec fn normalize_model(
    tz: Seq<char>,
    start_field: Option<FieldStamp>,
    end_field: Option<FieldStamp>,
    rule: Option<Option<Seq<int>>>,
    ws: int,
    we: int,
) -> Result<Option<(Seq<int>, int, int)>, Diagnostic> {
    if start_field is None {
        Err(Diagnostic::MissingStart)
    } else {
        match stamp_instant(tz, start_field.unwrap()) {
            None => Err(Diagnostic::UnresolvableStart),
            Some(start) => if !(-SAFE_INSTANT_BOUND < start < SAFE_INSTANT_BOUND) {
                Err(Diagnostic::UnresolvableStart)
            } else {
                match civil_parts(tz, start) {
                    None => Err(Diagnostic::UnresolvableStart),
                    Some(civil) => {
                        let end_opt = match end_field {
                            Some(f) => stamp_instant(tz, f),
                            None => local_instant(tz, civil.0, MILLIS_PER_DAY - 1),
                        };
                        match end_opt {
                            None => Err(Diagnostic::UnresolvableEnd),
                            Some(end) => {
                                let dates = match rule {
                                    None => Ok(single_event_days(tz, start, end, ws, we)),
                                    Some(None) => Err(Diagnostic::BadRule),
                                    Some(Some(occs)) => Ok(occurrence_days(tz, occs, ws, we)),
                                };
                                match dates {
                                    Err(d) => Err(d),
                                    Ok(ds) => if ds.len() == 0 {
                                        Ok(None)
                                    } else {
                                        Ok(Some((ds, civil.1, end - start)))
                                    },
                                }
                            },
                        }
                    },
                }
            },
        }
    }
}

/// Normalizes one event's resolved fields against the query window: resolves
/// the start instant and its local parts, the end instant (a missing end
/// defaults to the end of the start's local day), and keeps the occurrence
/// dates — the one-off window test for an event without a rule, the strict
/// window filter over the rule's enumerated instants otherwise. The whole
/// decision follows `normalize_model`.
pub fn normalize_event(
    name: String,
    start_field: Option<FieldStamp>,
    end_field: Option<FieldStamp>,
    rule: RuleStatus,
    tz: &str,
    window_start: i64,
    window_end: i64,
) -> (r: Result<Option<CalendarItem>, Diagnostic>)
    requires
        -SAFE_INSTANT_BOUND < window_start < SAFE_INSTANT_BOUND,
        -SAFE_INSTANT_BOUND < window_end < SAFE_INSTANT_BOUND,
        start_field matches Some(f) ==> stamp_bounded(f),
        end_field matches Some(f) ==> stamp_bounded(f),
    ensures
        ({
            let model = normalize_model(
                tz@,
                start_field,
                end_field,
                rule_model(rule),
                window_start as int,
                window_end as int,
            );
            match r {
                Err(d) => model == Err::<Option<(Seq<int>, int, int)>, Diagnostic>(d),
                Ok(None) => model == Ok::<Option<(Seq<int>, int, int)>, Diagnostic>(None),
                Ok(Some(item)) => {
                    &&& model matches Ok(m)
                    &&& m matches Some(parts)
                    &&& item.name@ == name@
                    &&& item.dates@.map_values(|d: i64| d as int) == parts.0
                    &&& item.time == parts.1
                    &&& item.length == parts.2
                    &&& item_wf(item)
                },
            }
        }),
{
    let start = match start_field {
        Some(f) => match stamp_instant_millis(tz, f) {
            Some(t) => t,
            None => {
                return Err(Diagnostic::UnresolvableStart);
            }
        },
        None => {
            return Err(Diagnostic::MissingStart);
        }
    };
    if start <= -SAFE_INSTANT_BOUND || start >= SAFE_INSTANT_BOUND {
        return Err(Diagnostic::UnresolvableStart);
    }
    let (start_day, start_tod) = match utc_to_local(tz, start) {
        Some(p) => p,
        None => {
            return Err(Diagnostic::UnresolvableStart);
        }
    };
    let end = match end_field {
        Some(f) => match stamp_instant_millis(tz, f) {
            Some(t) => t,
            None => {
                return Err(Diagnostic::UnresolvableEnd);
            }
        },
        None => match local_to_utc(tz, start_day, MILLIS_PER_DAY - 1) {
            Some(t) => t,
            None => {
                return Err(Diagnostic::UnresolvableEnd);
            }
        },
    };
    let dates: Vec<i64> = match rule {
        RuleStatus::NoRule => single_occurrence_days(tz, start, end, window_start, window_end),
        RuleStatus::RuleFailed => {
            return Err(Diagnostic::BadRule);
        }
        RuleStatus::RuleOccurrences(occs) => occurrence_days_within(
            tz,
            &occs,
            window_start,
            window_end,
        ),
    };
    if dates.len() > 0 {
        Ok(Some(CalendarItem { name, dates, time: start_tod, length: end - start }))
    } else {
        Ok(None)
    }
}

/// What one component contributes, given its record and — for an event whose
/// rule and anchor lines are both present — the rule outcome `exp` (`None`
/// when rrule rejected the text): an item's parts, nothing, or a diagnostic.
pub open spec fn component_outcome(
    tz: Seq<char>,
    rec: Option<EventRecord>,
    exp: Option<Seq<int>>,
    ws: int,
    we: int,
) -> Result<Option<(Seq<char>, Seq<int>, int, int)>, Diagnostic> {
    match rec {
        None => Err(Diagnostic::NotAnEvent),
        Some(rec) => match rec.name {
            None => Err(Diagnostic::MissingName),
            Some(name) => {
                let rule = match rec.rule_line {
                    None => None,
                    Some(_) => match rec.anchor_line {
                        None => Some(None),
                        Some(_) => Some(exp),
                    },
                };
                match normalize_model(tz, rec.start, rec.end, rule, ws, we) {
                    Err(d) => Err(d),
                    Ok(None) => Ok(None),
                    Ok(Some(p)) => Ok(Some((name, p.0, p.1, p.2))),
                }
            },
        },
    }
}

/// The items the document's components yield in order, given the rule
/// outcomes `exps` (one per component).
pub open spec fn doc_items(
    tz: Seq<char>,
    comps: Seq<Option<EventRecord>>,
    exps: Seq<Option<Seq<int>>>,
    ws: int,
    we: int,
) -> Seq<(Seq<char>, Seq<int>, int, int)>
    decreases comps.len(),
{
    if comps.len() == 0 {
        Seq::empty()
    } else {
        let rest = doc_items(tz, comps.drop_last(), exps.drop_last(), ws, we);
        match component_outcome(tz, comps.last(), exps.last(), ws, we) {
            Ok(Some(it)) => rest.push(it),
            _ => rest,
        }
    }
}

/// The diagnostics the document's components yield in order, given the rule
/// outcomes `exps`.
pub open spec fn doc_diagnostics(
    tz: Seq<char>,
    comps: Seq<Option<EventRecord>>,
    exps: Seq<Option<Seq<int>>>,
    ws: int,
    we: int,
) -> Seq<Diagnostic>
    decreases comps.len(),
{
    if comps.len() == 0 {
        Seq::empty()
    } else {
        let rest = doc_diagnostics(tz, comps.drop_last(), exps.drop_last(), ws, we);
        match component_outcome(tz, comps.last(), exps.last(), ws, we) {
            Err(d) => rest.push(d),
            _ => rest,
        }
    }
}

pub open spec fn item_matches(item: CalendarItem, m: (Seq<char>, Seq<int>, int, int)) -> bool {
    &&& item.name@ == m.0
    &&& item.dates@.map_values(|d: i64| d as int) == m.1
    &&& item.time == m.2
    &&& item.length == m.3
}

pub open spec fn items_match(
    items: Seq<CalendarItem>,
    ms: Seq<(Seq<char>, Seq<int>, int, int)>,
) -> bool {
    &&& items.len() == ms.len()
    &&& forall|i: int| 0 <= i < items.len() ==> item_matches(#[trigger] items[i], ms[i])
}

/// Parses raw iCalendar text and expands every usable event against the query
/// window. It fails exactly when the document as a whole is not well-formed;
/// every unusable component (not an event, no name, no resolvable start or
/// end, a recurrence rule without its anchor or one rrule rejects) is skipped
/// with its diagnostic, in document order. The items and diagnostics are the
/// fold of the normalization rules over the records the document denotes, for
/// some per-event rule outcomes — the outcomes themselves are rrule's and not
/// a function of the text alone.
pub fn get_events(body: &str, tz: &str, window_start: i64, window_end: i64) -> (r: Result<
    (Vec<CalendarItem>, Vec<Diagnostic>),
    CalendarParseError,
>)
    requires
        -SAFE_INSTANT_BOUND < window_start < SAFE_INSTANT_BOUND,
        -SAFE_INSTANT_BOUND < window_end < SAFE_INSTANT_BOUND,
    ensures
        (r is Err) == !cal_parses(body@),
        r matches Ok(p) ==> exists|exps: Seq<Option<Seq<int>>>|
            {
                &&& exps.len() == doc_components(body@).len()
                &&& items_match(
                    p.0@,
                    #[trigger] doc_items(
                        tz@,
                        doc_components(body@),
                        exps,
                        window_start as int,
                        window_end as int,
                    ),
                )
                &&& p.1@ == doc_diagnostics(
                    tz@,
                    doc_components(body@),
                    exps,
                    window_start as int,
                    window_end as int,
                )
            },
        r matches Ok(p) ==> forall|i: int| 0 <= i < p.0@.len() ==> item_wf(#[trigger] p.0@[i]),
{
    let calendar = match parse_calendar(body) {
        Ok(c) => c,
        Err(message) => {
            return Err(CalendarParseError { message });
        }
    };
    let n = component_count(&calendar);
    let ghost comps = calendar_model(calendar);
    let ghost ws = window_start as int;
    let ghost we = window_end as int;
    let mut items: Vec<CalendarItem> = Vec::new();
    let mut diags: Vec<Diagnostic> = Vec::new();
    let ghost mut exps: Seq<Option<Seq<int>>> = Seq::empty();
    let mut idx: usize = 0;
    proof {
        assert(comps.take(0) =~= Seq::<Option<EventRecord>>::empty());
    }
    while idx < n
        invariant
            0 <= idx <= n,
            n == comps.len(),
            comps == calendar_model(calendar),
            comps == doc_components(body@),
            ws == window_start as int,
            we == window_end as int,
            -SAFE_INSTANT_BOUND < window_start < SAFE_INSTANT_BOUND,
            -SAFE_INSTANT_BOUND < window_end < SAFE_INSTANT_BOUND,
            exps.len() == idx as int,
            items_match(items@, doc_items(tz@, comps.take(idx as int), exps, ws, we)),
            diags@ == doc_diagnostics(tz@, comps.take(idx as int), exps, ws, we),
            forall|i: int| 0 <= i < items@.len() ==> item_wf(#[trigger] items@[i]),
        decreases n - idx,
    {
        let ghost rec = comps[idx as int];
        let ghost items0 = items@;
        let ghost diags0 = diags@;
        let ghost exps0 = exps;
        let ghost ms0 = doc_items(tz@, comps.take(idx as int), exps0, ws, we);
        let ghost mut exp_entry: Option<Seq<int>> = None;
        let ghost mut outcome: Result<Option<(Seq<char>, Seq<int>, int, int)>, Diagnostic> = Err(
            Diagnostic::NotAnEvent,
        );
        if !component_is_event(&calendar, idx) {
            diags.push(Diagnostic::NotAnEvent);
            proof {
                outcome = component_outcome(tz@, rec, exp_entry, ws, we);
            }
        } else {
            match event_name(&calendar, idx) {
                None => {
                    diags.push(Diagnostic::MissingName);
                    proof {
                        outcome = component_outcome(tz@, rec, exp_entry, ws, we);
                    }
                }
                Some(name) => {
                    let ghost name_view = name@;
                    let start_field = event_start_stamp(&calendar, idx);
                    let end_field = event_end_stamp(&calendar, idx);
                    let rule_line = event_rule_line(&calendar, idx);
                    let anchor_line = event_anchor_line(&calendar, idx);
                    let rule_status: RuleStatus = match rule_line {
                        None => RuleStatus::NoRule,
                        Some(rl) => match anchor_line {
                            None => RuleStatus::RuleFailed,
                            Some(al) => {
                                let full = al.concat(rl.as_str());
                                match expand_rrule(full.as_str(), window_start, window_end) {
                                    Some(v) => {
                                        proof {
                                            exp_entry = Some(
                                                v@.map_values(|t: i64| t as int),
                                            );
                                        }
                                        RuleStatus::RuleOccurrences(v)
                                    }
                                    None => RuleStatus::RuleFailed,
                                }
                            }
                        },
                    };
                    let ghost rule_m = rule_model(rule_status);
                    proof {
                        outcome = component_outcome(tz@, rec, exp_entry, ws, we);
                        let r0 = rec.unwrap();
                        assert(r0.name == Some(name_view));
                        assert(rule_m == match r0.rule_line {
                            None => None::<Option<Seq<int>>>,
                            Some(_) => match r0.anchor_line {
                                None => Some(None::<Seq<int>>),
                                Some(_) => Some(exp_entry),
                            },
                        });
                    }
                    match normalize_event(
                        name,
                        start_field,
                        end_field,
                        rule_status,
                        tz,
                        window_start,
                        window_end,
                    ) {
                        Ok(Some(item)) => {
                            proof {
                                assert(outcome matches Ok(m) && m matches Some(it)
                                    && item_matches(item, it));
                            }
                            items.push(item);
                        }
                        Ok(None) => {
                            proof {
                                assert(outcome == Ok::<
                                    Option<(Seq<char>, Seq<int>, int, int)>,
                                    Diagnostic,
                                >(None));
                            }
                        }
                        Err(d) => {
                            proof {
                                assert(outcome == Err::<
                                    Option<(Seq<char>, Seq<int>, int, int)>,
                                    Diagnostic,
                                >(d));
                            }
                            diags.push(d);
                        }
                    }
                }
            }
        }
        proof {
            exps = exps0.push(exp_entry);
            assert(exps.drop_last() =~= exps0);
            assert(exps.last() == exp_entry);
            assert(comps.take(idx as int + 1).drop_last() =~= comps.take(idx as int));
            assert(comps.take(idx as int + 1).last() == rec);
            let ms1 = doc_items(tz@, comps.take(idx as int + 1), exps, ws, we);
            let ds1 = doc_diagnostics(tz@, comps.take(idx as int + 1), exps, ws, we);
            assert(outcome == component_outcome(tz@, rec, exp_entry, ws, we));
            match outcome {
                Ok(Some(it)) => {
                    assert(ms1 == ms0.push(it));
                    assert(items@ == items0.push(items@.last()));
                    assert(items_match(items@, ms1)) by {
                        assert(items@.len() == ms1.len());
                        assert forall|i: int| 0 <= i < items@.len() implies item_matches(
                            #[trigger] items@[i],
                            ms1[i],
                        ) by {
                            if i < items0.len() {
                                assert(items@[i] == items0[i]);
                                assert(ms1[i] == ms0[i]);
                            } else {
                                assert(items@[i] == items@.last());
                                assert(ms1[i] == it);
                            }
                        }
                    }
                    assert(ds1 == diags0);
                    assert(diags@ == ds1);
                }
                Ok(None) => {
                    assert(ms1 == ms0);
                    assert(ds1 == diags0);
                }
                Err(d) => {
                    assert(ms1 == ms0);
                    assert(ds1 == diags0.push(d));
                    assert(diags@ == ds1);
                }
            }
        }
        idx += 1;
    }
    proof {
        assert(comps.take(n as int) =~= comps);
        assert(exps.len() == doc_components(body@).len());
        assert(items_match(items@, doc_items(tz@, doc_components(body@), exps, ws, we)));
        assert(diags@ == doc_diagnostics(tz@, doc_components(body@), exps, ws, we));
    }
    Ok((items, diags))
}

} // verus!
