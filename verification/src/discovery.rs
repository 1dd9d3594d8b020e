//! Finding the joystick among the input devices of the machine.
//!
//! The kernel lists the joystick as one input device among many and does not
//! say which. The joystick is the first candidate, in the order in which the
//! candidates are listed, whose reported name is exactly the name that the
//! Sense HAT's driver gives it. A candidate that cannot be listed or opened
//! ends the search with an error: it is not passed over.

use vstd::prelude::*;
use vstd::string::StringSliceAdditionalSpecFns;

verus! {

/// The pattern that the paths of the candidates match: the event devices
/// among the kernel's input devices, which can be opened and read.
pub const DEVICE_PATTERN: &'static str = "/dev/input/event*";

/// The device name that the Sense HAT's driver gives the joystick.
pub const SENSE_HAT_EVDEV_NAME: &'static str = "Raspberry Pi Sense HAT Joystick";

/// The bytes of `SENSE_HAT_EVDEV_NAME`.
pub open spec fn sense_hat_name() -> Seq<u8> {
    SENSE_HAT_EVDEV_NAME.spec_bytes()
}

/// Whether `name` is the joystick's device name, byte for byte.
pub fn is_sense_hat_name(name: &[u8]) -> (b: bool)
    ensures
        b == (name@ == sense_hat_name()),
{
    let expected = SENSE_HAT_EVDEV_NAME.as_bytes();
    if name.len() != expected.len() {
        return false;
    }
    let mut i: usize = 0;
    while i < name.len()
        invariant
            i <= name.len(),
            name.len() == expected.len(),
            expected@ == sense_hat_name(),
            forall|j: int| 0 <= j < i ==> name@[j] == expected@[j],
        decreases name.len() - i,
    {
        if name[i] != expected[i] {
            return false;
        }
        i += 1;
    }
    assert(name@ =~= expected@);
    true
}

/// The joystick's device name is 31 bytes of ASCII.
pub proof fn sense_hat_name_is_31_bytes()
    ensures
        sense_hat_name().len() == 31,
        forall|i: int| 0 <= i < 31 ==> sense_hat_name()[i] < 128,
{
    reveal_strlit("Raspberry Pi Sense HAT Joystick");
    vstd::string::is_ascii_spec_bytes(SENSE_HAT_EVDEV_NAME);
    assert(vstd::string::is_ascii(SENSE_HAT_EVDEV_NAME));
}

/// The two operations that can fail on a candidate.
#[derive(Debug, Clone, Copy, PartialEq, Eq, Hash, Structural)]
pub enum Operation {
    /// Reading the candidate's path while the candidates are listed.
    List,
    /// Opening the device at the candidate's path.
    Open,
}

/// Why no joystick was opened.
#[derive(Debug, Clone, Copy, PartialEq, Eq, Hash, Structural)]
pub enum OpenError {
    /// An operation failed on the candidate at this place in the listing.
    DiscoveryIo { candidate: usize, operation: Operation },
    /// Every candidate was opened and none reports the joystick's name.
    NotFound,
}

/// What came of trying one candidate.
#[derive(Debug, PartialEq, Eq)]
pub enum Probe {
    /// Its path could not be read while the candidates were listed.
    Unlisted,
    /// The device at its path could not be opened.
    Unopened,
    /// The device was opened: its descriptor, and the name that it reports.
    Opened { fd: i32, name: Vec<u8> },
}

impl Probe {
    /// Whether the candidate was opened and reports the joystick's name.
    pub open spec fn is_joystick(&self) -> bool {
        *self matches Probe::Opened { name, .. } && name@ == sense_hat_name()
    }

    /// Whether the search ends at this candidate: it is the joystick, or it
    /// could not be listed or opened.
    pub open spec fn spec_settles(&self) -> bool {
        self.is_joystick() || self is Unlisted || self is Unopened
    }

    /// What the search comes to when it ends at this candidate, the one at
    /// place `candidate` in the listing: the joystick's descriptor, or the
    /// operation that failed.
    pub open spec fn settlement(&self, candidate: usize) -> Result<i32, OpenError> {
        match *self {
            Probe::Unlisted => Err(
                OpenError::DiscoveryIo { candidate, operation: Operation::List },
            ),
            Probe::Unopened => Err(
                OpenError::DiscoveryIo { candidate, operation: Operation::Open },
            ),
            Probe::Opened { fd, .. } => Ok(fd),
        }
    }

    /// Whether the search ends at this candidate. Once it does, no further
    /// candidate need be tried.
    #[verifier::when_used_as_spec(spec_settles)]
    pub fn settles(&self) -> (b: bool)
        ensures
            b == self.spec_settles(),
    {
        match self {
            Probe::Unlisted => true,
            Probe::Unopened => true,
            Probe::Opened { name, .. } => is_sense_hat_name(name.as_slice()),
        }
    }
}

/// Whether no candidate among `probes` ends the search.
pub open spec fn none_settles(probes: Seq<Probe>) -> bool {
    forall|i: int| 0 <= i < probes.len() ==> !probes[i].spec_settles()
}

/// Whether `i` is the place of the first candidate that ends the search.
pub open spec fn is_first_settling(probes: Seq<Probe>, i: int) -> bool {
    &&& 0 <= i < probes.len()
    &&& probes[i].spec_settles()
    &&& none_settles(probes.take(i))
}

/// What the search comes to on these candidates, tried in this order: what
/// the first candidate that ends it settles, and `NotFound` where none does.
pub open spec fn discovered(probes: Seq<Probe>) -> Result<i32, OpenError> {
    if none_settles(probes) {
        Err(OpenError::NotFound)
    } else {
        let first = choose|i: int| is_first_settling(probes, i);
        probes[first].settlement(first as usize)
    }
}

/// A search ends at one place at most.
pub(crate) proof fn lemma_first_settling_is_unique(probes: Seq<Probe>, i: int, j: int)
    requires
        is_first_settling(probes, i),
        is_first_settling(probes, j),
    ensures
        i == j,
{
    if i < j {
        assert(probes.take(j)[i] == probes[i]);
    } else if j < i {
        assert(probes.take(i)[j] == probes[j]);
    }
}

/// The search ends at the first candidate that settles it, with what that
/// candidate settles, and nothing that follows the candidate bears on the
/// result: the candidates after it need not be tried at all.
pub proof fn search_ends_at_the_first_settling_candidate(probes: Seq<Probe>, i: int)
    requires
        is_first_settling(probes, i),
    ensures
        discovered(probes) == probes[i].settlement(i as usize),
        discovered(probes.take(i + 1)) == discovered(probes),
{
    let chosen = choose|k: int| is_first_settling(probes, k);
    lemma_first_settling_is_unique(probes, i, chosen);
    let tried = probes.take(i + 1);
    assert(tried[i] == probes[i]);
    assert(tried.take(i) == probes.take(i));
    let chosen_tried = choose|k: int| is_first_settling(tried, k);
    lemma_first_settling_is_unique(tried, i, chosen_tried);
}

/// Where every candidate was opened and exactly one reports the joystick's
/// name, that one is opened as the joystick.
pub proof fn the_one_joystick_is_found(probes: Seq<Probe>, i: int)
    requires
        0 <= i < probes.len(),
        probes[i].is_joystick(),
        forall|j: int|
            0 <= j < probes.len() && j != i ==> probes[j] is Opened && !probes[j].is_joystick(),
    ensures
        discovered(probes) == Ok::<i32, OpenError>(probes[i]->fd),
{
    assert forall|j: int| 0 <= j < probes.take(i).len() implies !probes.take(i)[j].spec_settles() by {
        assert(probes.take(i)[j] == probes[j]);
    }
    search_ends_at_the_first_settling_candidate(probes, i);
}

/// Where every candidate was opened and none reports the joystick's name, no
/// joystick is found.
pub proof fn no_joystick_is_not_found(probes: Seq<Probe>)
    requires
        forall|j: int| 0 <= j < probes.len() ==> probes[j] is Opened && !probes[j].is_joystick(),
    ensures
        discovered(probes) == Err::<i32, OpenError>(OpenError::NotFound),
{
}

/// Where the first candidate could not be listed or opened, the search fails
/// at once with that failure, whatever the candidates after it are.
pub proof fn a_failing_first_candidate_ends_the_search(probes: Seq<Probe>)
    requires
        probes.len() > 0,
        probes[0] is Unlisted || probes[0] is Unopened,
    ensures
        probes[0] is Unlisted ==> discovered(probes) == Err::<i32, OpenError>(
            OpenError::DiscoveryIo { candidate: 0, operation: Operation::List },
        ),
        probes[0] is Unopened ==> discovered(probes) == Err::<i32, OpenError>(
            OpenError::DiscoveryIo { candidate: 0, operation: Operation::Open },
        ),
        discovered(probes) == discovered(probes.take(1)),
{
    search_ends_at_the_first_settling_candidate(probes, 0);
}

} // verus!
