use dnd_schedule::ical::{
    get_events, normalize_event, occurrence_days_within, recurring_occurrence_days,
    single_occurrence_days, Diagnostic, FieldStamp, RuleStatus,
};

// 2024-01-01 (a Monday) is day 738886 from the common era; the Unix epoch day
// (1970-01-01) is 719163.
const DAY_MS: i64 = 86_400_000;
const MON: i64 = 738_886;
const MON_MS: i64 = (MON - 719_163) * DAY_MS; // 2024-01-01T00:00:00Z
const WEEK_END_MS: i64 = MON_MS + 7 * DAY_MS;

fn wrap_calendar(events: &str) -> String {
    format!("BEGIN:VCALENDAR\r\n{}END:VCALENDAR\r\n", events)
}

#[test]
fn recurring_weekly_single_occurrence() {
    // Weekly rule anchored on Monday 10:00: exactly one occurrence falls
    // strictly inside the Monday-to-Monday window.
    let rule = "DTSTART:20240101T100000Z\r\nRRULE:FREQ=WEEKLY\r\n";
    let days = recurring_occurrence_days("UTC", rule, MON_MS, WEEK_END_MS).unwrap();
    assert_eq!(days, vec![MON]);
}

#[test]
fn recurring_boundary_occurrences_excluded() {
    // Anchored exactly at the window start: that occurrence equals the start
    // bound and the following one equals the end bound; both are excluded.
    let rule = "DTSTART:20240101T000000Z\r\nRRULE:FREQ=WEEKLY\r\n";
    let days = recurring_occurrence_days("UTC", rule, MON_MS, WEEK_END_MS).unwrap();
    assert_eq!(days, Vec::<i64>::new());
}

#[test]
fn recurring_daily_all_dates() {
    let rule = "DTSTART:20240101T120000Z\r\nRRULE:FREQ=DAILY;COUNT=3\r\n";
    let days = recurring_occurrence_days("UTC", rule, MON_MS, WEEK_END_MS).unwrap();
    assert_eq!(days, vec![MON, MON + 1, MON + 2]);
}

#[test]
fn recurring_bad_rule_is_none() {
    assert!(recurring_occurrence_days("UTC", "not a rule", MON_MS, WEEK_END_MS).is_none());
}

#[test]
fn single_event_window_overlap() {
    let sun_start = MON_MS + 6 * DAY_MS + 23 * 3_600_000; // Sunday 23:00
    let sun_end = MON_MS + 7 * DAY_MS - 1; // Sunday 23:59:59.999
    // Included in the week containing that Sunday...
    assert_eq!(
        single_occurrence_days("UTC", sun_start, sun_end, MON_MS, WEEK_END_MS),
        vec![MON + 6]
    );
    // ... and excluded from the following week.
    assert_eq!(
        single_occurrence_days("UTC", sun_start, sun_end, WEEK_END_MS, WEEK_END_MS + 7 * DAY_MS),
        Vec::<i64>::new()
    );
    // An event that starts before the window but extends into it is included.
    assert_eq!(
        single_occurrence_days("UTC", MON_MS - 3_600_000, MON_MS + 3_600_000, MON_MS, WEEK_END_MS),
        vec![MON - 1]
    );
}

#[test]
fn parse_and_expand_recurring_event() {
    let body = wrap_calendar(
        "BEGIN:VEVENT\r\nSUMMARY:Work\r\nDTSTART:20240102T090000Z\r\nDTEND:20240102T170000Z\r\nRRULE:FREQ=WEEKLY\r\nEND:VEVENT\r\n",
    );
    let (items, diags) = get_events(&body, "UTC", MON_MS, WEEK_END_MS).unwrap();
    assert_eq!(diags, Vec::new());
    assert_eq!(items.len(), 1);
    assert_eq!(items[0].name, "Work");
    assert_eq!(items[0].dates, vec![MON + 1]);
    assert_eq!(items[0].time, 9 * 3_600_000);
    assert_eq!(items[0].length, 8 * 3_600_000);
}

#[test]
fn missing_name_skipped_rest_processed() {
    // The nameless event yields nothing; the later event is still parsed.
    let body = wrap_calendar(
        "BEGIN:VEVENT\r\nDTSTART:20240102T090000Z\r\nDTEND:20240102T100000Z\r\nEND:VEVENT\r\nBEGIN:VEVENT\r\nSUMMARY:Standup\r\nDTSTART:20240103T100000Z\r\nDTEND:20240103T101500Z\r\nEND:VEVENT\r\n",
    );
    let (items, diags) = get_events(&body, "UTC", MON_MS, WEEK_END_MS).unwrap();
    assert_eq!(items.len(), 1);
    assert_eq!(items[0].name, "Standup");
    assert_eq!(items[0].dates, vec![MON + 2]);
    assert_eq!(items[0].length, 15 * 60_000);
    assert!(diags.contains(&Diagnostic::MissingName));
}

#[test]
fn missing_start_skipped() {
    let body = wrap_calendar("BEGIN:VEVENT\r\nSUMMARY:Work\r\nEND:VEVENT\r\n");
    let (items, diags) = get_events(&body, "UTC", MON_MS, WEEK_END_MS).unwrap();
    assert_eq!(items.len(), 0);
    assert_eq!(diags, vec![Diagnostic::MissingStart]);
}

#[test]
fn unresolvable_start_skipped() {
    let body = wrap_calendar(
        "BEGIN:VEVENT\r\nSUMMARY:Work\r\nDTSTART;TZID=Nowhere/Nope:20240102T090000\r\nEND:VEVENT\r\n",
    );
    let (items, diags) = get_events(&body, "UTC", MON_MS, WEEK_END_MS).unwrap();
    assert_eq!(items.len(), 0);
    assert_eq!(diags, vec![Diagnostic::UnresolvableStart]);
}

#[test]
fn bad_rule_skipped() {
    let body = wrap_calendar(
        "BEGIN:VEVENT\r\nSUMMARY:Work\r\nDTSTART:20240102T090000Z\r\nRRULE:FREQ=BOGUS\r\nEND:VEVENT\r\n",
    );
    let (items, diags) = get_events(&body, "UTC", MON_MS, WEEK_END_MS).unwrap();
    assert_eq!(items.len(), 0);
    assert_eq!(diags, vec![Diagnostic::BadRule]);
}

#[test]
fn all_day_event_defaults() {
    // A bare date becomes local midnight; a missing end becomes the end of
    // the start's day.
    let body = wrap_calendar(
        "BEGIN:VEVENT\r\nSUMMARY:Conference\r\nDTSTART;VALUE=DATE:20240104\r\nEND:VEVENT\r\n",
    );
    let (items, _) = get_events(&body, "UTC", MON_MS, WEEK_END_MS).unwrap();
    assert_eq!(items.len(), 1);
    assert_eq!(items[0].dates, vec![MON + 3]);
    assert_eq!(items[0].time, 0);
    assert_eq!(items[0].length, DAY_MS - 1);
}

#[test]
fn event_outside_window_dropped() {
    let body = wrap_calendar(
        "BEGIN:VEVENT\r\nSUMMARY:Work\r\nDTSTART:20240201T090000Z\r\nDTEND:20240201T100000Z\r\nEND:VEVENT\r\n",
    );
    let (items, diags) = get_events(&body, "UTC", MON_MS, WEEK_END_MS).unwrap();
    assert_eq!(items.len(), 0);
    assert_eq!(diags, Vec::new());
}

#[test]
fn malformed_document_fails() {
    assert!(get_events("BEGIN:VEVENT\r\n", "UTC", MON_MS, WEEK_END_MS).is_err());
}

#[test]
fn timezone_shifts_local_date() {
    // Monday 23:30 UTC is already Tuesday in Stockholm: the produced local
    // date and time of day follow the queried timezone.
    let body = wrap_calendar(
        "BEGIN:VEVENT\r\nSUMMARY:Work\r\nDTSTART:20240101T233000Z\r\nDTEND:20240102T003000Z\r\nEND:VEVENT\r\n",
    );
    let (items, _) = get_events(&body, "Europe/Stockholm", MON_MS, WEEK_END_MS).unwrap();
    assert_eq!(items.len(), 1);
    assert_eq!(items[0].dates, vec![MON + 1]);
    assert_eq!(items[0].time, 30 * 60_000);
}

#[test]
fn normalize_missing_start() {
    let r = normalize_event(
        String::from("Work"), None, None, RuleStatus::NoRule, "UTC", MON_MS, WEEK_END_MS,
    );
    assert_eq!(r, Err(Diagnostic::MissingStart));
}

#[test]
fn normalize_failed_rule() {
    // A rule without its anchor line, or one rrule rejects, drops the event.
    let start = FieldStamp::At(MON_MS + DAY_MS + 9 * 3_600_000);
    let r = normalize_event(
        String::from("Work"),
        Some(start),
        None,
        RuleStatus::RuleFailed,
        "UTC",
        MON_MS,
        WEEK_END_MS,
    );
    assert_eq!(r, Err(Diagnostic::BadRule));
}

#[test]
fn normalize_unresolvable_start() {
    let r = normalize_event(
        String::from("Work"),
        Some(FieldStamp::Unresolvable),
        None,
        RuleStatus::NoRule,
        "UTC",
        MON_MS,
        WEEK_END_MS,
    );
    assert_eq!(r, Err(Diagnostic::UnresolvableStart));
}

#[test]
fn normalize_one_off_inside_window() {
    let start = FieldStamp::At(MON_MS + DAY_MS + 9 * 3_600_000);
    let end = FieldStamp::At(MON_MS + DAY_MS + 10 * 3_600_000);
    let item = normalize_event(
        String::from("Work"),
        Some(start),
        Some(end),
        RuleStatus::NoRule,
        "UTC",
        MON_MS,
        WEEK_END_MS,
    )
    .unwrap()
    .unwrap();
    assert_eq!(item.name, "Work");
    assert_eq!(item.dates, vec![MON + 1]);
    assert_eq!(item.time, 9 * 3_600_000);
    assert_eq!(item.length, 3_600_000);
}

#[test]
fn normalize_out_of_window_is_none() {
    let start = FieldStamp::At(MON_MS + 30 * DAY_MS);
    let end = FieldStamp::At(MON_MS + 30 * DAY_MS + 3_600_000);
    let r = normalize_event(
        String::from("Work"),
        Some(start),
        Some(end),
        RuleStatus::NoRule,
        "UTC",
        MON_MS,
        WEEK_END_MS,
    );
    assert_eq!(r, Ok(None));
}

#[test]
fn normalize_given_occurrences_filters_window() {
    let start = FieldStamp::At(MON_MS + DAY_MS + 9 * 3_600_000);
    let occs = vec![MON_MS, MON_MS + DAY_MS + 9 * 3_600_000, WEEK_END_MS];
    let item = normalize_event(
        String::from("Work"),
        Some(start),
        None,
        RuleStatus::RuleOccurrences(occs),
        "UTC",
        MON_MS,
        WEEK_END_MS,
    )
    .unwrap()
    .unwrap();
    // Only the instant strictly inside the window survives.
    assert_eq!(item.dates, vec![MON + 1]);
}

#[test]
fn window_filter_is_strictly_open() {
    // Instants exactly on either bound are excluded, whatever list rrule
    // handed back; the ones strictly inside map to their local dates.
    let occs = vec![MON_MS, MON_MS + DAY_MS, MON_MS + 2 * DAY_MS, WEEK_END_MS];
    assert_eq!(
        occurrence_days_within("UTC", &occs, MON_MS, WEEK_END_MS),
        vec![MON + 1, MON + 2]
    );
}
