//! Derives a weekly do-not-disturb schedule and a presence status from a
//! calendar feed's text: parses the events, expands recurrence rules inside
//! the current local week, and folds the matching occurrences into a
//! per-weekday busy profile plus a "busy now / next busy start"
//! determination. Fetching the feed and publishing the result are left to the
//! caller; the derivation itself is verified.

pub mod clock;
pub mod ical;
pub mod schedule;
pub mod slack;
