//! The joystick device.

use crate::codes::DecodeError;
use crate::discovery::{
    discovered, is_first_settling, lemma_first_settling_is_unique, none_settles, OpenError,
    Operation, Probe,
};
use crate::event::{decode_records, decoded, JoyStickEvent, RawRecord};
use vstd::prelude::*;

verus! {

/// What came of one read of the device.
#[derive(Debug, PartialEq, Eq)]
pub enum ReadOutcome {
    /// The records that the kernel had buffered, in the order of delivery.
    Records(Vec<RawRecord>),
    /// Nothing was there to read, and the descriptor does not block.
    WouldBlock,
    /// The read failed otherwise, with this error number of the operating
    /// system where it gave one.
    Failed { os_error: Option<i32> },
}

/// Why a call for events brought none.
#[derive(Debug, Clone, Copy, PartialEq, Eq, Hash, Structural)]
pub enum EventsError {
    /// Nothing was there to read. This is no failure of the device: a
    /// readiness loop goes on and asks again when the device is next ready.
    WouldBlock,
    /// The read failed, with this error number of the operating system
    /// where it gave one.
    Io { os_error: Option<i32> },
    /// A key event held a code or a value that the joystick cannot send.
    Decode(DecodeError),
}

impl EventsError {
    /// Whether nothing was there to read.
    pub open spec fn spec_is_would_block(&self) -> bool {
        *self == EventsError::WouldBlock
    }

    /// Whether nothing was there to read, which a caller may answer by
    /// asking again later.
    #[verifier::when_used_as_spec(spec_is_would_block)]
    pub fn is_would_block(&self) -> (b: bool)
        ensures
            b == self.spec_is_would_block(),
    {
        match self {
            EventsError::WouldBlock => true,
            _ => false,
        }
    }
}

/// What a call for events brings, given what came of the read. Records are
/// decoded as a batch. A read that brought no records gives its own error:
/// `WouldBlock` stays apart from every other failure.
pub open spec fn delivered(read: ReadOutcome) -> Result<Seq<JoyStickEvent>, EventsError> {
    match read {
        ReadOutcome::Records(records) => match decoded(records@) {
            Ok(events) => Ok(events),
            Err(e) => Err(EventsError::Decode(e)),
        },
        ReadOutcome::WouldBlock => Err(EventsError::WouldBlock),
        ReadOutcome::Failed { os_error } => Err(EventsError::Io { os_error }),
    }
}

/// An open joystick device, known by its descriptor. The descriptor is fixed
/// when the device is opened and never changes.
#[derive(Debug)]
pub struct JoyStick {
    fd: i32,
}

impl JoyStick {
    /// The raw descriptor of the open device.
    pub closed spec fn spec_fd(&self) -> i32 {
        self.fd
    }

    /// Opens the joystick among the candidates that were tried, in the order
    /// in which they were listed. The joystick is the first candidate that
    /// reports the joystick's name, unless a candidate before it could not
    /// be listed or opened: then the search fails at that candidate. Where
    /// all were opened and none is the joystick, none is found.
    pub fn open(probes: &[Probe]) -> (r: Result<JoyStick, OpenError>)
        ensures
            match r {
                Ok(stick) => discovered(probes@) == Ok::<i32, OpenError>(stick.spec_fd()),
                Err(e) => discovered(probes@) == Err::<i32, OpenError>(e),
            },
    {
        let mut i: usize = 0;
        while i < probes.len()
            invariant
                i <= probes.len(),
                none_settles(probes@.take(i as int)),
            decreases probes.len() - i,
        {
            proof {
                if probes@[i as int].spec_settles() {
                    let first = choose|k: int| is_first_settling(probes@, k);
                    assert(is_first_settling(probes@, i as int));
                    lemma_first_settling_is_unique(probes@, first, i as int);
                } else {
                    assert(probes@.take(i as int + 1) == probes@.take(i as int).push(
                        probes@[i as int],
                    ));
                }
            }
            match &probes[i] {
                Probe::Unlisted => {
                    return Err(OpenError::DiscoveryIo { candidate: i, operation: Operation::List });
                },
                Probe::Unopened => {
                    return Err(OpenError::DiscoveryIo { candidate: i, operation: Operation::Open });
                },
                Probe::Opened { fd, .. } => {
                    if probes[i].settles() {
                        return Ok(JoyStick { fd: *fd });
                    }
                },
            }
            i += 1;
        }
        proof {
            assert(probes@.take(i as int) == probes@);
        }
        Err(OpenError::NotFound)
    }

    /// The events of one read of the device: the key events among the
    /// records that were read, decoded in the order of delivery, or the
    /// reason why there are none. The device stays the device that it was.
    pub fn events(&mut self, read: ReadOutcome) -> (r: Result<Vec<JoyStickEvent>, EventsError>)
        ensures
            *final(self) == *old(self),
            match r {
                Ok(events) => delivered(read) == Ok::<Seq<JoyStickEvent>, EventsError>(events@),
                Err(e) => delivered(read) == Err::<Seq<JoyStickEvent>, EventsError>(e),
            },
    {
        match read {
            ReadOutcome::Records(records) => match decode_records(records.as_slice()) {
                Ok(events) => Ok(events),
                Err(e) => Err(EventsError::Decode(e)),
            },
            ReadOutcome::WouldBlock => Err(EventsError::WouldBlock),
            ReadOutcome::Failed { os_error } => Err(EventsError::Io { os_error }),
        }
    }

    /// The raw descriptor of the open device.
    #[verifier::when_used_as_spec(spec_fd)]
    pub fn fd(&self) -> (fd: i32)
        ensures
            fd == self.spec_fd(),
    {
        self.fd
    }
}

} // verus!
