//! Raw input records and the joystick events that they decode to.

use crate::codes::{Action, DecodeError, Direction};
use std::time::Duration;
use vstd::prelude::*;

verus! {

/// The type tag that the kernel gives to key events. Records with any other
/// tag, such as synchronization markers, say nothing about the joystick.
pub const EV_KEY: u16 = 1;

/// The `Duration` of `secs` whole seconds and `nanos` further nanoseconds:
/// what `std::time::Duration::new` returns for the two.
pub uninterp spec fn duration_of(secs: u64, nanos: u32) -> Duration;

/// `std::time::Duration::new`, called with less than a second's worth of
/// nanoseconds, where it carries nothing over and cannot overflow. The result
/// is taken to depend on the two numbers alone.
#[verifier::external_body]
fn new_duration(secs: u64, nanos: u32) -> (d: Duration)
    requires
        nanos < 1_000_000_000,
    ensures
        d == duration_of(secs, nanos),
{
    Duration::new(secs, nanos)
}

/// An event issued by the joystick: when it happened, as the time since the
/// UNIX epoch that the device reported, in which direction, and what was done.
#[derive(Debug, Clone, Copy, PartialEq, Eq, Hash)]
pub struct JoyStickEvent {
    pub timestamp: Duration,
    pub direction: Direction,
    pub action: Action,
}

impl JoyStickEvent {
    /// The event with these three parts.
    pub fn new(timestamp: Duration, direction: Direction, action: Action) -> (event: Self)
        ensures
            event == (JoyStickEvent { timestamp, direction, action }),
    {
        JoyStickEvent { timestamp, direction, action }
    }
}

/// One input-event record as the kernel lays it out: the time of the event in
/// seconds and microseconds, a type tag, a code and a value.
#[derive(Debug, Clone, Copy, PartialEq, Eq, Hash, Structural)]
pub struct RawRecord {
    pub tv_sec: i64,
    pub tv_usec: i64,
    pub kind: u16,
    pub code: u16,
    pub value: i32,
}

impl RawRecord {
    /// Whether this record is a key event.
    pub open spec fn is_key(self) -> bool {
        self.kind == EV_KEY
    }

    /// The record's time in microseconds since the epoch. A time before the
    /// epoch counts as the epoch itself.
    pub open spec fn micros(self) -> int {
        let total = self.tv_sec * 1_000_000 + self.tv_usec;
        if total < 0 {
            0
        } else {
            total
        }
    }

    /// The record's time as a `Duration`: the whole seconds of `micros`, and
    /// the rest of it in nanoseconds.
    pub open spec fn timestamp(self) -> Duration {
        duration_of((self.micros() / 1_000_000) as u64, (self.micros() % 1_000_000 * 1_000) as u32)
    }

    /// Whether the code is that of a direction and the value that of an action.
    pub open spec fn decodable(self) -> bool {
        &&& Direction::of_code(self.code as usize) is Some
        &&& 0 <= self.value
        &&& Action::of_code(self.value as usize) is Some
    }

    /// The event that a decodable record stands for.
    pub open spec fn event(self) -> JoyStickEvent {
        JoyStickEvent {
            timestamp: self.timestamp(),
            direction: Direction::of_code(self.code as usize).unwrap(),
            action: Action::of_code(self.value as usize).unwrap(),
        }
    }

    /// The error that a record which is not decodable gives: its code where
    /// that is no direction's, else its value as an unsigned number.
    pub open spec fn error(self) -> DecodeError {
        if Direction::of_code(self.code as usize) is None {
            DecodeError::UnrecognizedCode(self.code as usize)
        } else {
            DecodeError::UnrecognizedAction(self.value as usize)
        }
    }

    /// The record's time since the epoch.
    pub fn stamp(&self) -> (t: Duration)
        ensures
            t == self.timestamp(),
    {
        let total: i128 = (self.tv_sec as i128) * 1_000_000 + (self.tv_usec as i128);
        if total < 0 {
            new_duration(0, 0)
        } else {
            let secs: u64 = (total / 1_000_000) as u64;
            let nanos: u32 = (total % 1_000_000 * 1_000) as u32;
            new_duration(secs, nanos)
        }
    }

    /// Decodes the code, the value and the time of a record, whatever its
    /// type tag: the event where the record is decodable, else its error.
    pub fn decode(&self) -> (r: Result<JoyStickEvent, DecodeError>)
        ensures
            self.decodable() ==> r == Ok::<JoyStickEvent, DecodeError>(self.event()),
            !self.decodable() ==> r == Err::<JoyStickEvent, DecodeError>(self.error()),
    {
        let direction = match Direction::try_from(self.code as usize) {
            Ok(direction) => direction,
            Err(e) => { return Err(e); },
        };
        if self.value < 0 {
            return Err(DecodeError::UnrecognizedAction(self.value as usize));
        }
        let action = match Action::try_from(self.value as usize) {
            Ok(action) => action,
            Err(e) => { return Err(e); },
        };
        Ok(JoyStickEvent::new(self.stamp(), direction, action))
    }
}

/// The key events among `records`, in the order in which they stand there.
pub open spec fn key_records(records: Seq<RawRecord>) -> Seq<RawRecord> {
    records.filter(|r: RawRecord| r.is_key())
}

/// The events that the key events among `records` stand for, one for each
/// and in the same order.
pub open spec fn events_of(records: Seq<RawRecord>) -> Seq<JoyStickEvent> {
    key_records(records).map_values(|r: RawRecord| r.event())
}

/// Whether every key event among `records` is decodable.
pub open spec fn all_decodable(records: Seq<RawRecord>) -> bool {
    forall|i: int| 0 <= i < records.len() && records[i].is_key() ==> records[i].decodable()
}

/// Whether `i` is the place in `records` of the first key event that is not
/// decodable.
pub open spec fn is_first_failure(records: Seq<RawRecord>, i: int) -> bool {
    &&& 0 <= i < records.len()
    &&& records[i].is_key()
    &&& !records[i].decodable()
    &&& all_decodable(records.take(i))
}

/// What a batch of records decodes to. Where every key event in it is
/// decodable, their events; else the error of the first that is not, and
/// nothing of the others.
pub open spec fn decoded(records: Seq<RawRecord>) -> Result<Seq<JoyStickEvent>, DecodeError> {
    if all_decodable(records) {
        Ok(events_of(records))
    } else {
        Err(records[choose|i: int| is_first_failure(records, i)].error())
    }
}

/// A batch has at most one first failure.
proof fn lemma_first_failure_is_unique(records: Seq<RawRecord>, i: int, j: int)
    requires
        is_first_failure(records, i),
        is_first_failure(records, j),
    ensures
        i == j,
{
    if i < j {
        assert(records.take(j)[i] == records[i]);
    } else if j < i {
        assert(records.take(i)[j] == records[j]);
    }
}

/// One more record adds its event where it is a key event, and nothing where
/// it is not.
proof fn lemma_events_of_push(records: Seq<RawRecord>, record: RawRecord)
    ensures
        record.is_key() ==> events_of(records.push(record)) == events_of(records).push(
            record.event(),
        ),
        !record.is_key() ==> events_of(records.push(record)) == events_of(records),
{
    reveal(Seq::filter);
    assert(records.push(record).drop_last() == records);
    if record.is_key() {
        assert(key_records(records.push(record)) == key_records(records).push(record));
        assert(events_of(records.push(record)) =~= events_of(records).push(record.event()));
    }
}

/// Decodes a batch of records. Key events are decoded in the order in which
/// they stand in the batch and all other records are passed over. The first
/// key event that is not decodable fails the whole batch with its error.
pub fn decode_records(records: &[RawRecord]) -> (r: Result<Vec<JoyStickEvent>, DecodeError>)
    ensures
        match r {
            Ok(events) => decoded(records@) == Ok::<Seq<JoyStickEvent>, DecodeError>(events@),
            Err(e) => decoded(records@) == Err::<Seq<JoyStickEvent>, DecodeError>(e),
        },
{
    let mut events: Vec<JoyStickEvent> = Vec::new();
    let mut i: usize = 0;
    proof {
        reveal(Seq::filter);
        assert(events_of(records@.take(0)) =~= Seq::<JoyStickEvent>::empty());
    }
    while i < records.len()
        invariant
            i <= records.len(),
            all_decodable(records@.take(i as int)),
            events@ == events_of(records@.take(i as int)),
        decreases records.len() - i,
    {
        let record = records[i];
        proof {
            lemma_events_of_push(records@.take(i as int), record);
            assert(records@.take(i as int + 1) == records@.take(i as int).push(record));
        }
        if record.kind == EV_KEY {
            match record.decode() {
                Ok(event) => {
                    events.push(event);
                },
                Err(e) => {
                    proof {
                        let first = choose|k: int| is_first_failure(records@, k);
                        assert(is_first_failure(records@, i as int));
                        lemma_first_failure_is_unique(records@, first, i as int);
                    }
                    return Err(e);
                },
            }
        }
        i += 1;
    }
    proof {
        assert(records@.take(i as int) == records@);
    }
    Ok(events)
}

/// Some key event is the first that is not decodable, wherever one is not.
proof fn lemma_first_failure_exists(records: Seq<RawRecord>, i: int) -> (first: int)
    requires
        0 <= i < records.len(),
        records[i].is_key(),
        !records[i].decodable(),
    ensures
        is_first_failure(records, first),
        first <= i,
    decreases i,
{
    if all_decodable(records.take(i)) {
        i
    } else {
        let j = choose|j: int|
            0 <= j < records.take(i).len() && records.take(i)[j].is_key() && !records.take(
                i,
            )[j].decodable();
        lemma_first_failure_exists(records, j)
    }
}

/// The events of a batch are those of its parts, one after the other: no
/// event changes place with another. A single record gives its event where it
/// is a key event, and nothing where it is not.
pub proof fn events_keep_the_order_of_the_records(
    front: Seq<RawRecord>,
    back: Seq<RawRecord>,
    record: RawRecord,
)
    ensures
        events_of(front + back) == events_of(front) + events_of(back),
        record.is_key() ==> events_of(seq![record]) == seq![record.event()],
        !record.is_key() ==> events_of(seq![record]) == Seq::<JoyStickEvent>::empty(),
{
    let is_key = |r: RawRecord| r.is_key();
    Seq::filter_distributes_over_add(front, back, is_key);
    assert(events_of(front + back) =~= events_of(front) + events_of(back));
    lemma_events_of_push(Seq::empty(), record);
    reveal(Seq::filter);
    assert(events_of(Seq::empty()) =~= Seq::<JoyStickEvent>::empty());
    assert(Seq::<RawRecord>::empty().push(record) == seq![record]);
    assert(Seq::<JoyStickEvent>::empty().push(record.event()) == seq![record.event()]);
}

/// A batch in which every key event is decodable gives one event for each of
/// its key events, in their order, and none for any other record: as many
/// events as the batch has records, less those that are no key events.
pub proof fn key_events_are_decoded_and_the_rest_dropped(records: Seq<RawRecord>)
    requires
        all_decodable(records),
    ensures
        decoded(records) == Ok::<Seq<JoyStickEvent>, DecodeError>(events_of(records)),
        events_of(records).len() == key_records(records).len(),
        forall|k: int|
            0 <= k < key_records(records).len() ==> events_of(records)[k] == key_records(
                records,
            )[k].event(),
        key_records(records).len() + records.filter(|r: RawRecord| !r.is_key()).len()
            == records.len(),
    decreases records.len(),
{
    reveal(Seq::filter);
    if records.len() > 0 {
        let rest = records.drop_last();
        assert forall|i: int| 0 <= i < rest.len() && rest[i].is_key() implies rest[i].decodable() by {
            assert(rest[i] == records[i]);
        }
        key_events_are_decoded_and_the_rest_dropped(rest);
    }
}

/// One key event that is not decodable fails the whole batch, whatever else
/// the batch holds: the result is the error of the first such key event, and
/// no event of any other record.
pub proof fn one_undecodable_key_event_fails_the_batch(records: Seq<RawRecord>, i: int)
    requires
        0 <= i < records.len(),
        records[i].is_key(),
        !records[i].decodable(),
    ensures
        decoded(records) is Err,
        exists|first: int|
            0 <= first <= i && is_first_failure(records, first) && decoded(records) == Err::<
                Seq<JoyStickEvent>,
                DecodeError,
            >(records[first].error()),
{
    let first = lemma_first_failure_exists(records, i);
    let chosen = choose|k: int| is_first_failure(records, k);
    lemma_first_failure_is_unique(records, first, chosen);
}

} // verus!
