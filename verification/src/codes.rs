//! The closed sets of key codes and key states that the joystick reports.
//!
//! The hardware has five directions and three actions, and the kernel driver
//! gives each a fixed number. Any other number is an error, never a sixth
//! direction or a fourth action.

use vstd::prelude::*;

verus! {

/// Why a key code or a key state could not be decoded.
#[derive(Debug, Clone, Copy, PartialEq, Eq, Hash, Structural)]
pub enum DecodeError {
    /// The key code, carried here, is that of none of the five directions.
    UnrecognizedCode(usize),
    /// The key state, carried here, is that of none of the three actions.
    UnrecognizedAction(usize),
}

/// Direction in which the joystick is moved.
#[derive(Debug, Clone, Copy, PartialEq, Eq, Hash, Structural)]
pub enum Direction {
    Enter,
    Up,
    Down,
    Left,
    Right,
}

impl Direction {
    /// The key code that the kernel driver reports for this direction.
    pub open spec fn spec_code(self) -> usize {
        match self {
            Direction::Enter => 28,
            Direction::Up => 103,
            Direction::Down => 108,
            Direction::Left => 105,
            Direction::Right => 106,
        }
    }

    /// The direction that a key code stands for, if it stands for one.
    pub open spec fn of_code(code: usize) -> Option<Direction> {
        if code == Direction::Enter.spec_code() {
            Some(Direction::Enter)
        } else if code == Direction::Up.spec_code() {
            Some(Direction::Up)
        } else if code == Direction::Down.spec_code() {
            Some(Direction::Down)
        } else if code == Direction::Left.spec_code() {
            Some(Direction::Left)
        } else if code == Direction::Right.spec_code() {
            Some(Direction::Right)
        } else {
            None
        }
    }

    /// The key code that the kernel driver reports for this direction.
    #[verifier::when_used_as_spec(spec_code)]
    pub fn code(self) -> (c: usize)
        ensures
            c == self.spec_code(),
    {
        match self {
            Direction::Enter => 28,
            Direction::Up => 103,
            Direction::Down => 108,
            Direction::Left => 105,
            Direction::Right => 106,
        }
    }

    /// Decodes a key code: the direction that it stands for, or an error that
    /// carries the code when it stands for none.
    pub fn try_from(code: usize) -> (r: Result<Direction, DecodeError>)
        ensures
            r is Ok <==> Direction::of_code(code) is Some,
            r matches Ok(d) ==> Direction::of_code(code) == Some(d) && d.spec_code() == code,
            r matches Err(e) ==> e == DecodeError::UnrecognizedCode(code),
    {
        if code == Direction::Enter.code() {
            Ok(Direction::Enter)
        } else if code == Direction::Up.code() {
            Ok(Direction::Up)
        } else if code == Direction::Down.code() {
            Ok(Direction::Down)
        } else if code == Direction::Left.code() {
            Ok(Direction::Left)
        } else if code == Direction::Right.code() {
            Ok(Direction::Right)
        } else {
            Err(DecodeError::UnrecognizedCode(code))
        }
    }
}

/// The action that was carried out in a `Direction`.
#[derive(Debug, Clone, Copy, PartialEq, Eq, Hash, Structural)]
pub enum Action {
    Release,
    Press,
    Hold,
}

impl Action {
    /// The key state that the kernel reports for this action.
    pub open spec fn spec_code(self) -> usize {
        match self {
            Action::Release => 0,
            Action::Press => 1,
            Action::Hold => 2,
        }
    }

    /// The action that a key state stands for, if it stands for one.
    pub open spec fn of_code(code: usize) -> Option<Action> {
        if code == Action::Press.spec_code() {
            Some(Action::Press)
        } else if code == Action::Release.spec_code() {
            Some(Action::Release)
        } else if code == Action::Hold.spec_code() {
            Some(Action::Hold)
        } else {
            None
        }
    }

    /// The key state that the kernel reports for this action.
    #[verifier::when_used_as_spec(spec_code)]
    pub fn code(self) -> (c: usize)
        ensures
            c == self.spec_code(),
    {
        match self {
            Action::Release => 0,
            Action::Press => 1,
            Action::Hold => 2,
        }
    }

    /// Decodes a key state: the action that it stands for, or an error that
    /// carries the state when it stands for none.
    pub fn try_from(code: usize) -> (r: Result<Action, DecodeError>)
        ensures
            r is Ok <==> Action::of_code(code) is Some,
            r matches Ok(a) ==> Action::of_code(code) == Some(a) && a.spec_code() == code,
            r matches Err(e) ==> e == DecodeError::UnrecognizedAction(code),
    {
        if code == Action::Press.code() {
            Ok(Action::Press)
        } else if code == Action::Release.code() {
            Ok(Action::Release)
        } else if code == Action::Hold.code() {
            Ok(Action::Hold)
        } else {
            Err(DecodeError::UnrecognizedAction(code))
        }
    }
}

/// Decoding undoes encoding, and nothing else decodes: a key code stands for
/// a direction exactly when it is that direction's code, and it stands for
/// one exactly when it is 28, 103, 105, 106 or 108.
pub proof fn direction_decoding_inverts_encoding(d: Direction, code: usize)
    ensures
        Direction::of_code(d.spec_code()) == Some(d),
        Direction::of_code(code) == Some(d) <==> d.spec_code() == code,
        Direction::of_code(code) is Some <==> (code == 28 || code == 103 || code == 105 || code
            == 106 || code == 108),
{
}

/// Decoding undoes encoding, and nothing else decodes: a key state stands for
/// an action exactly when it is that action's state, and it stands for one
/// exactly when it is 0, 1 or 2.
pub proof fn action_decoding_inverts_encoding(a: Action, code: usize)
    ensures
        Action::of_code(a.spec_code()) == Some(a),
        Action::of_code(code) == Some(a) <==> a.spec_code() == code,
        Action::of_code(code) is Some <==> code <= 2,
{
}

} // verus!
