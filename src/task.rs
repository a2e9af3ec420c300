//! The task record as the library sees it: text, occurrence, progress and
//! lifecycle timestamps held as plain values.

use vstd::prelude::*;

use crate::slug::{normalize, normalized, slug_of, to_snake_case};

verus! {

/// The largest distance from the Unix epoch, in seconds, that a
/// timestamp may have (about 253,000 years).
pub const MAX_TIMESTAMP_SECS: i64 = 8_000_000_000_000;

/// One second less than a day: the largest offset from UTC.
pub const MAX_OFFSET_SECS: i32 = 86_399;

/// A point in time with whole-second precision, and the offset from UTC of
/// the time zone it was taken in.
#[derive(Debug, Clone, Copy, PartialEq, Eq, Structural)]
pub struct Timestamp {
    /// Seconds since 1970-01-01T00:00:00 UTC.
    pub secs: i64,
    /// Seconds east of UTC.
    pub offset: i32,
}

impl Timestamp {
    /// The seconds and the offset lie in the ranges above.
    pub open spec fn wf(self) -> bool {
        -MAX_TIMESTAMP_SECS <= self.secs <= MAX_TIMESTAMP_SECS && -MAX_OFFSET_SECS <= self.offset
            <= MAX_OFFSET_SECS
    }

    /// Whether the timestamp lies in the supported range.
    pub fn is_in_range(&self) -> (r: bool)
        ensures
            r == self.wf(),
    {
        -MAX_TIMESTAMP_SECS <= self.secs && self.secs <= MAX_TIMESTAMP_SECS && -MAX_OFFSET_SECS
            <= self.offset && self.offset <= MAX_OFFSET_SECS
    }
}

/// The local time now, as `chrono` gives it.
///
/// Relies on `chrono::Local::now`, `DateTime::timestamp` and
/// `FixedOffset::local_minus_utc`; the whole seconds are kept, the
/// fraction of a second dropped. Nothing is promised of the value.
/// `Local::now` panics when the system clock reads a time before 1970.
#[verifier::external_body]
pub fn now_rounded() -> (r: Timestamp) {
    let now = chrono::Local::now();
    Timestamp { secs: now.timestamp(), offset: now.offset().local_minus_utc() }
}

/// The text `chrono` prints for a timestamp with `{:?}`.
pub uninterp spec fn stamp_text_of(secs: int, offset: int) -> Seq<char>;

/// Relies on `chrono::DateTime::from_timestamp`, `FixedOffset::east_opt`,
/// `DateTime::with_timezone` and the `Debug` format of `DateTime`: the text
/// depends on the instant and the offset alone, and is never empty.
/// `from_timestamp` accepts every instant within about 262,000 years of the
/// epoch and `east_opt` every offset under a day, so neither fails here.
#[verifier::external_body]
pub(crate) fn stamp_text(t: &Timestamp) -> (r: String)
    requires
        t.wf(),
    ensures
        r@ == stamp_text_of(t.secs as int, t.offset as int),
        r@.len() > 0,
{
    let offset = chrono::FixedOffset::east_opt(t.offset).unwrap();
    let utc = chrono::DateTime::from_timestamp(t.secs, 0).unwrap();
    format!("{:?}", utc.with_timezone(&offset))
}

/// A day of the week.
#[derive(Debug, Clone, Copy, PartialEq, Eq, Structural)]
pub enum Weekday {
    Mon,
    Tue,
    Wed,
    Thu,
    Fri,
    Sat,
    Sun,
}

/// How a periodic task repeats.
#[derive(Debug, Clone, Copy, PartialEq, Eq, Structural)]
pub enum Recurrence {
    Daily,
    Weekly(Weekday),
    Monthly { week: u32, day: Weekday },
}

/// Whether a task happens once or repeats.
#[derive(Debug, Clone, Copy, PartialEq, Eq, Structural)]
pub enum Occurrence {
    OneTime,
    Periodic { recurrence: Recurrence },
}

/// Someone who takes part in a task.
#[derive(Debug)]
pub struct Person {
    pub name: String,
}

/// A task record.
#[derive(Debug)]
pub struct Task {
    pub title: String,
    pub description: String,
    pub occurrence: Occurrence,
    /// The effort estimates, each the bit pattern of an IEEE 754 double
    /// (`f64::to_bits`); the library only carries them.
    pub effort: Vec<u64>,
    /// How much is done, in whole percent (the fraction done times 100,
    /// rounded down).
    pub done_percent: u8,
    pub created_at: Timestamp,
    pub due_at: Option<Timestamp>,
    pub started_at: Option<Timestamp>,
    pub paused_at: Option<Vec<Timestamp>>,
    pub resumed_at: Option<Vec<Timestamp>>,
    pub finished_at: Option<Timestamp>,
    pub cancelled_at: Option<Timestamp>,
    pub people: Option<Vec<Person>>,
}

/// A title is usable when its normal form gives a non-empty slug.
pub open spec fn is_valid_title(title: Seq<char>) -> bool {
    slug_of(normalized(title)).len() > 0
}

impl Task {
    /// The template a new task starts from: blank text, happening once, no
    /// effort, nothing done, created now.
    pub fn new() -> (r: Task)
        ensures
            r.title@.len() == 0,
            r.description@.len() == 0,
            r.occurrence == Occurrence::OneTime,
            r.effort@.len() == 0,
            r.done_percent == 0,
            r.due_at is None,
            r.started_at is None,
            r.paused_at is None,
            r.resumed_at is None,
            r.finished_at is None,
            r.cancelled_at is None,
            r.people is None,
    {
        Self::new_at(now_rounded())
    }

    /// The template a new task starts from, created at `created_at`.
    pub fn new_at(created_at: Timestamp) -> (r: Task)
        ensures
            r.created_at == created_at,
            r.title@.len() == 0,
            r.description@.len() == 0,
            r.occurrence == Occurrence::OneTime,
            r.effort@.len() == 0,
            r.done_percent == 0,
            r.due_at is None,
            r.started_at is None,
            r.paused_at is None,
            r.resumed_at is None,
            r.finished_at is None,
            r.cancelled_at is None,
            r.people is None,
    {
        Task {
            title: String::new(),
            description: String::new(),
            occurrence: Occurrence::OneTime,
            effort: Vec::new(),
            done_percent: 0,
            created_at,
            due_at: None,
            started_at: None,
            paused_at: None,
            resumed_at: None,
            finished_at: None,
            cancelled_at: None,
            people: None,
        }
    }

    /// Whether the task may be stored: its normalised title gives a
    /// non-empty slug (so an empty title never does). The description may
    /// be empty.
    pub fn is_valid(&self) -> (r: bool)
        ensures
            r == is_valid_title(self.title@),
            self.title@.len() == 0 ==> !r,
    {
        !self.is_invalid()
    }

    fn is_invalid(&self) -> (r: bool)
        ensures
            r == !is_valid_title(self.title@),
            self.title@.len() == 0 ==> r,
    {
        let title = normalize(self.title.as_str());
        let slug = to_snake_case(title.as_str());
        proof {
            if self.title@.len() == 0 {
                assert(normalized(self.title@) =~= Seq::<char>::empty());
            }
        }
        slug.as_str().unicode_len() == 0
    }

    /// How much is done, in whole percent.
    pub fn done_in_percent(&self) -> (r: u8)
        ensures
            r == self.done_percent,
    {
        self.done_percent
    }
}

} // verus!
