//! A joystick that takes part in a readiness loop.

use crate::event::JoyStickEvent;
use crate::poll::{PollRequest, Registration};
use crate::stick::{delivered, EventsError, JoyStick, ReadOutcome};
use mio::{PollOpt, Ready, Token};
use vstd::prelude::*;

verus! {

/// Event-pollable wrapper for the joystick. It owns the device, adds no state
/// of its own, and asks of a multiplexer exactly what the device would ask.
#[derive(Debug)]
pub struct JoystickIo {
    stick: JoyStick,
}

impl JoystickIo {
    /// The device inside the wrapper.
    pub closed spec fn stick(&self) -> JoyStick {
        self.stick
    }

    /// Wraps a device. Nothing is read or registered.
    pub fn new(stick: JoyStick) -> (io: JoystickIo)
        ensures
            io.stick() == stick,
    {
        JoystickIo { stick }
    }

    /// The raw descriptor of the device inside.
    pub fn fd(&self) -> (fd: i32)
        ensures
            fd == self.stick().spec_fd(),
    {
        self.stick.fd()
    }

    /// The events of one read of the device, as the device itself gives
    /// them. The records are taken as they arrived, whether or not the kernel
    /// has closed their group with a synchronization marker, so the events
    /// of one call may span more than one such group.
    pub fn events(&mut self, read: ReadOutcome) -> (r: Result<Vec<JoyStickEvent>, EventsError>)
        ensures
            *final(self) == *old(self),
            match r {
                Ok(events) => delivered(read) == Ok::<Seq<JoyStickEvent>, EventsError>(events@),
                Err(e) => delivered(read) == Err::<Seq<JoyStickEvent>, EventsError>(e),
            },
    {
        self.stick.events(read)
    }

    /// Asks to have the device's descriptor watched: the device's own request.
    pub fn register(&self, token: Token, interest: Ready, opts: PollOpt) -> (request: PollRequest)
        ensures
            request == self.stick().register_request(token, interest, opts),
    {
        self.stick.register(token, interest, opts)
    }

    /// Asks to have the device's descriptor watched in another way: the
    /// device's own request.
    pub fn reregister(&self, token: Token, interest: Ready, opts: PollOpt) -> (request: PollRequest)
        ensures
            request == self.stick().reregister_request(token, interest, opts),
    {
        self.stick.reregister(token, interest, opts)
    }

    /// Asks to have the device's descriptor watched no longer: the device's
    /// own request.
    pub fn deregister(&self) -> (request: PollRequest)
        ensures
            request == self.stick().deregister_request(),
    {
        self.stick.deregister()
    }
}

/// Registering a wrapped joystick and then deregistering it leaves the
/// multiplexer with no registration for its descriptor, whatever it watched
/// before, and with every other registration as it was.
pub proof fn register_then_deregister_leaves_none(
    watched: Map<i32, Registration>,
    io: JoystickIo,
    token: Token,
    interest: Ready,
    opts: PollOpt,
)
    ensures
        ({
            let fd = io.stick().spec_fd();
            let registered = io.stick().register_request(token, interest, opts).effect(watched);
            let deregistered = io.stick().deregister_request().effect(registered);
            &&& registered.contains_key(fd)
            &&& !deregistered.contains_key(fd)
            &&& deregistered == watched.remove(fd)
        }),
{
    let fd = io.stick().spec_fd();
    let registered = io.stick().register_request(token, interest, opts).effect(watched);
    let deregistered = io.stick().deregister_request().effect(registered);
    assert(deregistered =~= watched.remove(fd));
}

} // verus!
