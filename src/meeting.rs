//! Meetings, their recurrence, and the rule that decides whether one is in session.

use vstd::prelude::*;

use crate::clock::{Date, LocalDateTime, TimeOfDay, Weekday, NANOS_PER_SEC};

verus! {

/// On which calendar dates a meeting is held.
#[derive(Clone, Debug)]
pub enum Frequency {
    /// On that date alone.
    Once(Date),
    /// On every date whose weekday is listed.
    Weekly(Vec<Weekday>),
    /// On every date.
    Daily,
}

/// A scheduled meeting.
#[derive(Clone, Debug)]
pub struct Meeting {
    /// The name shown to the user; not necessarily unique.
    pub name: String,
    pub freq: Frequency,
    pub start: TimeOfDay,
    pub end: TimeOfDay,
    /// The meeting number that the join link carries.
    pub metno: String,
    /// The passcode that the join link carries, if any.
    pub paswd: Option<String>,
}

/// The part of every join link that precedes the meeting number.
pub open spec fn url_prefix() -> Seq<char> {
    "zoommtg://zoom.us/join?confno="@
}

/// The part of a join link that precedes the passcode.
pub open spec fn passcode_key() -> Seq<char> {
    "&pwd="@
}

/// The join link of a meeting with number `metno` and passcode `paswd`.
pub open spec fn join_url(metno: Seq<char>, paswd: Option<Seq<char>>) -> Seq<char> {
    match paswd {
        Some(p) => url_prefix() + metno + passcode_key() + p,
        None => url_prefix() + metno,
    }
}

impl Meeting {
    /// A meeting with the given fields.
    pub fn new(
        name: String,
        freq: Frequency,
        start: TimeOfDay,
        end: TimeOfDay,
        metno: String,
        paswd: Option<String>,
    ) -> (r: Meeting)
        ensures
            r.name == name,
            r.freq == freq,
            r.start == start,
            r.end == end,
            r.metno == metno,
            r.paswd == paswd,
    {
        Meeting { name, freq, start, end, metno, paswd }
    }

    /// The meeting is held on `date`.
    pub open spec fn scheduled_on(self, date: Date) -> bool {
        match self.freq {
            Frequency::Once(d) => d == date,
            Frequency::Weekly(days) => days@.contains(date.weekday_spec()),
            Frequency::Daily => true,
        }
    }

    /// A moment at `time` lies within the meeting's window: no more than `buffer_start`
    /// seconds before its start, and at least `buffer_end` seconds before its end.
    pub open spec fn in_window(self, time: TimeOfDay, buffer_start: int, buffer_end: int) -> bool {
        &&& self.start.nanos_of_day() - time.nanos_of_day() <= buffer_start * NANOS_PER_SEC
        &&& self.end.nanos_of_day() - time.nanos_of_day() >= buffer_end * NANOS_PER_SEC
    }

    /// The meeting is in session at `now`, given the two buffers in seconds.
    pub open spec fn active_at(
        self,
        now: LocalDateTime,
        buffer_start: int,
        buffer_end: int,
    ) -> bool {
        self.scheduled_on(now.date) && self.in_window(now.time, buffer_start, buffer_end)
    }

    /// The earliest time of day, in nanoseconds since midnight, that the window admits
    /// given `buffer_start` seconds.
    pub open spec fn earliest_admitted(self, buffer_start: int) -> int {
        self.start.nanos_of_day() - buffer_start * NANOS_PER_SEC
    }

    /// The latest time of day, in nanoseconds since midnight, that the window admits
    /// given `buffer_end` seconds.
    pub open spec fn latest_admitted(self, buffer_end: int) -> int {
        self.end.nanos_of_day() - buffer_end * NANOS_PER_SEC
    }

    /// Whether the meeting is held on the date of `now`, and `now` lies within its window
    /// widened by `buffer_start` seconds before the start and narrowed by `buffer_end`
    /// seconds before the end.
    pub fn is_active(&self, now: &LocalDateTime, buffer_start: i64, buffer_end: i64) -> (r: bool)
        requires
            now.wf(),
        ensures
            r == self.active_at(*now, buffer_start as int, buffer_end as int),
    {
        let on_date = match &self.freq {
            Frequency::Once(d) => *d == now.date,
            Frequency::Weekly(days) => weekday_listed(days, now.date.weekday()),
            Frequency::Daily => true,
        };
        if !on_date {
            return false;
        }
        proof {
            assert(-9_223_372_036_854_775_808 * 1_000_000_000 <= buffer_start as int * 1_000_000_000
                <= 9_223_372_036_854_775_807 * 1_000_000_000) by (nonlinear_arith)
                requires
                    -9_223_372_036_854_775_808 <= buffer_start as int <= 9_223_372_036_854_775_807;
            assert(-9_223_372_036_854_775_808 * 1_000_000_000 <= buffer_end as int * 1_000_000_000
                <= 9_223_372_036_854_775_807 * 1_000_000_000) by (nonlinear_arith)
                requires
                    -9_223_372_036_854_775_808 <= buffer_end as int <= 9_223_372_036_854_775_807;
        }
        let before_start: i128 = self.start.nanos_since(&now.time);
        let before_end: i128 = self.end.nanos_since(&now.time);
        before_start <= buffer_start as i128 * NANOS_PER_SEC && before_end >= buffer_end as i128
            * NANOS_PER_SEC
    }

    /// Whether the meeting is in session at the current local time, given the two buffers.
    pub fn is_now(&self, buffer_start: i64, buffer_end: i64) -> (r: bool)
        ensures
            exists|now: LocalDateTime|
                now.wf() && r == #[trigger] self.active_at(now, buffer_start as int, buffer_end as int),
    {
        let now = LocalDateTime::now();
        self.is_active(&now, buffer_start, buffer_end)
    }

    /// The link that opens this meeting in the conferencing client.
    pub fn get_url(&self) -> (r: String)
        ensures
            r@ == join_url(self.metno@, match self.paswd {
                Some(p) => Some(p@),
                None => None,
            }),
    {
        let mut url = String::from_str("zoommtg://zoom.us/join?confno=");
        url.append(self.metno.as_str());
        match &self.paswd {
            Some(p) => {
                url.append("&pwd=");
                url.append(p.as_str());
            },
            None => {},
        }
        url
    }
}

/// A one-off meeting is never in session on a date other than its own, whatever the time
/// of day and the buffers.
pub proof fn lemma_once_only_on_its_date(
    m: Meeting,
    now: LocalDateTime,
    buffer_start: int,
    buffer_end: int,
)
    requires
        m.freq matches Frequency::Once(d) && d != now.date,
    ensures
        !m.active_at(now, buffer_start, buffer_end),
{
}

/// A weekly meeting is never in session on a weekday that it does not list, whatever the
/// time of day and the buffers.
pub proof fn lemma_weekly_only_on_its_days(
    m: Meeting,
    now: LocalDateTime,
    buffer_start: int,
    buffer_end: int,
)
    requires
        m.freq matches Frequency::Weekly(days) && !days@.contains(now.date.weekday_spec()),
    ensures
        !m.active_at(now, buffer_start, buffer_end),
{
}

/// On a date that the meeting is held, a moment is admitted exactly when its time of day
/// lies between `start - buffer_start` and `end - buffer_end`. So raising the start buffer
/// by `k` seconds moves the earliest admitted moment `k` seconds earlier, and raising the end
/// buffer by `k` seconds moves the latest admitted moment `k` seconds earlier.
pub proof fn lemma_buffers_shift_window(
    m: Meeting,
    now: LocalDateTime,
    buffer_start: int,
    buffer_end: int,
    k: int,
)
    ensures
        m.active_at(now, buffer_start, buffer_end) <==> {
            &&& m.scheduled_on(now.date)
            &&& m.earliest_admitted(buffer_start) <= now.time.nanos_of_day()
            &&& now.time.nanos_of_day() <= m.latest_admitted(buffer_end)
        },
        m.earliest_admitted(buffer_start + k) == m.earliest_admitted(buffer_start) - k
            * NANOS_PER_SEC,
        m.latest_admitted(buffer_end + k) == m.latest_admitted(buffer_end) - k * NANOS_PER_SEC,
{
    assert((buffer_start + k) * NANOS_PER_SEC == buffer_start * NANOS_PER_SEC + k * NANOS_PER_SEC)
        by (nonlinear_arith);
    assert((buffer_end + k) * NANOS_PER_SEC == buffer_end * NANOS_PER_SEC + k * NANOS_PER_SEC)
        by (nonlinear_arith);
}

/// A meeting that ends before it starts is never in session without buffers.
pub proof fn lemma_reversed_window_never_admits(m: Meeting, now: LocalDateTime)
    requires
        m.start.nanos_of_day() > m.end.nanos_of_day(),
    ensures
        !m.active_at(now, 0, 0),
{
}

/// Whether `day` is among `days`.
fn weekday_listed(days: &Vec<Weekday>, day: Weekday) -> (r: bool)
    ensures
        r == days@.contains(day),
{
    let mut i: usize = 0;
    while i < days.len()
        invariant
            i <= days@.len(),
            forall|k: int| 0 <= k < i ==> days@[k] != day,
        decreases days.len() - i,
    {
        if days[i] == day {
            return true;
        }
        i = i + 1;
    }
    false
}

} // verus!
