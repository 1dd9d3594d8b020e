//! Lending the joystick's descriptor to a readiness multiplexer.
//!
//! The joystick exposes nothing but a raw descriptor. To take part in a
//! readiness loop it has that descriptor registered with a multiplexer, under
//! a token and with an interest set and trigger options that the caller
//! chooses. The device stays the sole owner of the descriptor: what goes to
//! the multiplexer is a request that names it.

use crate::stick::JoyStick;
use mio::{PollOpt, Ready, Token};
use std::collections::HashMap;
use vstd::prelude::*;

verus! {

broadcast use vstd::std_specs::hash::group_hash_axioms;

/// `mio::Token`, the number by which a multiplexer's caller tells its
/// sources apart. It is carried through and never looked into.
#[verifier::external_type_specification]
#[verifier::external_body]
pub struct ExToken(mio::Token);

/// `mio::Ready`, a set of readiness kinds such as readable and writable. It
/// is carried through and never looked into.
#[verifier::external_type_specification]
#[verifier::external_body]
pub struct ExReady(mio::Ready);

/// `mio::PollOpt`, the trigger options of a registration: edge, level,
/// one-shot. It is carried through and never looked into.
#[verifier::external_type_specification]
#[verifier::external_body]
pub struct ExPollOpt(mio::PollOpt);

/// What a source asks of a multiplexer.
#[derive(Debug, Clone, Copy, PartialEq, Eq)]
pub enum PollRequest {
    /// Start watching the descriptor.
    Register { fd: i32, token: Token, interest: Ready, opts: PollOpt },
    /// Watch the descriptor, which is being watched, in another way.
    Reregister { fd: i32, token: Token, interest: Ready, opts: PollOpt },
    /// Stop watching the descriptor.
    Deregister { fd: i32 },
}

/// What a multiplexer holds for a descriptor that it watches.
#[derive(Debug, Clone, Copy, PartialEq, Eq)]
pub struct Registration {
    pub token: Token,
    pub interest: Ready,
    pub opts: PollOpt,
}

/// Why a multiplexer refuses a request.
#[derive(Debug, Clone, Copy, PartialEq, Eq, Hash, Structural)]
pub enum PollError {
    /// The descriptor to register is being watched already.
    AlreadyRegistered,
    /// The descriptor to reregister or deregister is not being watched.
    NotRegistered,
}

impl PollRequest {
    /// Why a multiplexer that watches `watched` refuses the request, if it
    /// does: a descriptor is registered only while it is not watched, and
    /// reregistered or deregistered only while it is.
    pub open spec fn refusal(self, watched: Map<i32, Registration>) -> Option<PollError> {
        match self {
            PollRequest::Register { fd, .. } => if watched.contains_key(fd) {
                Some(PollError::AlreadyRegistered)
            } else {
                None
            },
            PollRequest::Reregister { fd, .. } => if watched.contains_key(fd) {
                None
            } else {
                Some(PollError::NotRegistered)
            },
            PollRequest::Deregister { fd } => if watched.contains_key(fd) {
                None
            } else {
                Some(PollError::NotRegistered)
            },
        }
    }

    /// What a multiplexer that watches `watched` watches after the request.
    /// A request that it refuses changes nothing.
    pub open spec fn effect(self, watched: Map<i32, Registration>) -> Map<i32, Registration> {
        if self.refusal(watched) is Some {
            watched
        } else {
            match self {
                PollRequest::Register { fd, token, interest, opts } => watched.insert(
                    fd,
                    Registration { token, interest, opts },
                ),
                PollRequest::Reregister { fd, token, interest, opts } => watched.insert(
                    fd,
                    Registration { token, interest, opts },
                ),
                PollRequest::Deregister { fd } => watched.remove(fd),
            }
        }
    }
}

/// A stand-in for a multiplexer, which keeps registrations and waits for
/// nothing. It serves to check what a program registers, with no device and
/// no operating system at hand.
pub struct Registry {
    watched: HashMap<i32, Registration>,
}

impl View for Registry {
    type V = Map<i32, Registration>;

    /// The descriptors that are watched, each with its registration.
    closed spec fn view(&self) -> Map<i32, Registration> {
        self.watched@
    }
}

impl Registry {
    /// A registry that watches nothing.
    pub fn new() -> (registry: Registry)
        ensures
            registry@ == Map::<i32, Registration>::empty(),
    {
        Registry { watched: HashMap::new() }
    }

    /// Serves a request: registers, reregisters or deregisters the
    /// descriptor that it names, or refuses the request and changes nothing.
    pub fn serve(&mut self, request: PollRequest) -> (r: Result<(), PollError>)
        ensures
            final(self)@ == request.effect(old(self)@),
            request.refusal(old(self)@) matches Some(e) ==> r == Err::<(), PollError>(e),
            request.refusal(old(self)@) is None ==> r == Ok::<(), PollError>(()),
    {
        match request {
            PollRequest::Register { fd, token, interest, opts } => {
                if self.watched.contains_key(&fd) {
                    return Err(PollError::AlreadyRegistered);
                }
                self.watched.insert(fd, Registration { token, interest, opts });
            },
            PollRequest::Reregister { fd, token, interest, opts } => {
                if !self.watched.contains_key(&fd) {
                    return Err(PollError::NotRegistered);
                }
                self.watched.insert(fd, Registration { token, interest, opts });
            },
            PollRequest::Deregister { fd } => {
                if !self.watched.contains_key(&fd) {
                    return Err(PollError::NotRegistered);
                }
                self.watched.remove(&fd);
            },
        }
        Ok(())
    }

    /// The registration of a descriptor, if it is watched.
    pub fn registration(&self, fd: i32) -> (r: Option<Registration>)
        ensures
            self@.contains_key(fd) ==> r == Some(self@[fd]),
            !self@.contains_key(fd) ==> r is None,
    {
        match self.watched.get(&fd) {
            Some(registration) => Some(*registration),
            None => None,
        }
    }

    /// How many descriptors are watched.
    pub fn len(&self) -> (n: usize)
        ensures
            n == self@.len(),
    {
        self.watched.len()
    }
}

impl JoyStick {
    /// The request to start watching this device.
    pub open spec fn register_request(&self, token: Token, interest: Ready, opts: PollOpt)
        -> PollRequest {
        PollRequest::Register { fd: self.spec_fd(), token, interest, opts }
    }

    /// The request to watch this device in another way.
    pub open spec fn reregister_request(&self, token: Token, interest: Ready, opts: PollOpt)
        -> PollRequest {
        PollRequest::Reregister { fd: self.spec_fd(), token, interest, opts }
    }

    /// The request to stop watching this device.
    pub open spec fn deregister_request(&self) -> PollRequest {
        PollRequest::Deregister { fd: self.spec_fd() }
    }

    /// Asks to have the device's descriptor watched, with the token, the
    /// interest set and the options as they were given.
    pub fn register(&self, token: Token, interest: Ready, opts: PollOpt) -> (request: PollRequest)
        ensures
            request == self.register_request(token, interest, opts),
    {
        PollRequest::Register { fd: self.fd(), token, interest, opts }
    }

    /// Asks to have the device's descriptor watched in another way, with the
    /// token, the interest set and the options as they were given.
    pub fn reregister(&self, token: Token, interest: Ready, opts: PollOpt) -> (request: PollRequest)
        ensures
            request == self.reregister_request(token, interest, opts),
    {
        PollRequest::Reregister { fd: self.fd(), token, interest, opts }
    }

    /// Asks to have the device's descriptor watched no longer.
    pub fn deregister(&self) -> (request: PollRequest)
        ensures
            request == self.deregister_request(),
    {
        PollRequest::Deregister { fd: self.fd() }
    }
}

} // verus!
