use sensehat_stick::{Action, DecodeError, Direction};

#[test]
fn every_direction_code_decodes_to_its_direction() {
    assert_eq!(Direction::try_from(28), Ok(Direction::Enter));
    assert_eq!(Direction::try_from(103), Ok(Direction::Up));
    assert_eq!(Direction::try_from(108), Ok(Direction::Down));
    assert_eq!(Direction::try_from(105), Ok(Direction::Left));
    assert_eq!(Direction::try_from(106), Ok(Direction::Right));
}

#[test]
fn every_other_code_is_no_direction() {
    for code in 0..1024usize {
        if [28usize, 103, 105, 106, 108].contains(&code) {
            continue;
        }
        assert_eq!(Direction::try_from(code), Err(DecodeError::UnrecognizedCode(code)));
    }
    assert_eq!(
        Direction::try_from(usize::MAX),
        Err(DecodeError::UnrecognizedCode(usize::MAX))
    );
}

#[test]
fn neighbours_of_direction_codes_are_rejected() {
    for code in [27usize, 29, 102, 104, 107, 109] {
        assert_eq!(Direction::try_from(code), Err(DecodeError::UnrecognizedCode(code)));
    }
}

#[test]
fn every_action_value_decodes_to_its_action() {
    assert_eq!(Action::try_from(0), Ok(Action::Release));
    assert_eq!(Action::try_from(1), Ok(Action::Press));
    assert_eq!(Action::try_from(2), Ok(Action::Hold));
}

#[test]
fn every_other_value_is_no_action() {
    for value in 3..1024usize {
        assert_eq!(Action::try_from(value), Err(DecodeError::UnrecognizedAction(value)));
    }
    assert_eq!(
        Action::try_from(usize::MAX),
        Err(DecodeError::UnrecognizedAction(usize::MAX))
    );
}

#[test]
fn direction_codes_are_those_of_the_driver() {
    assert_eq!(Direction::Enter.code(), 28);
    assert_eq!(Direction::Up.code(), 103);
    assert_eq!(Direction::Down.code(), 108);
    assert_eq!(Direction::Left.code(), 105);
    assert_eq!(Direction::Right.code(), 106);
}

#[test]
fn action_codes_are_those_of_the_kernel() {
    assert_eq!(Action::Release.code(), 0);
    assert_eq!(Action::Press.code(), 1);
    assert_eq!(Action::Hold.code(), 2);
}

#[test]
fn decoding_undoes_encoding() {
    for direction in [
        Direction::Enter,
        Direction::Up,
        Direction::Down,
        Direction::Left,
        Direction::Right,
    ] {
        assert_eq!(Direction::try_from(direction.code()), Ok(direction));
    }
    for action in [Action::Release, Action::Press, Action::Hold] {
        assert_eq!(Action::try_from(action.code()), Ok(action));
    }
}

#[test]
fn a_code_error_is_not_an_action_error() {
    assert_ne!(DecodeError::UnrecognizedCode(3), DecodeError::UnrecognizedAction(3));
    assert_eq!(Direction::try_from(1), Err(DecodeError::UnrecognizedCode(1)));
    assert_eq!(Action::try_from(28), Err(DecodeError::UnrecognizedAction(28)));
}
