use sensehat_stick::discovery::{
    is_sense_hat_name, OpenError, Operation, Probe, DEVICE_PATTERN, SENSE_HAT_EVDEV_NAME,
};
use sensehat_stick::JoyStick;

fn joystick(fd: i32) -> Probe {
    Probe::Opened { fd, name: b"Raspberry Pi Sense HAT Joystick".to_vec() }
}

fn keyboard(fd: i32) -> Probe {
    Probe::Opened { fd, name: b"Logitech USB Keyboard".to_vec() }
}

#[test]
fn joystick_name_is_31_bytes() {
    assert_eq!(SENSE_HAT_EVDEV_NAME, "Raspberry Pi Sense HAT Joystick");
    assert_eq!(SENSE_HAT_EVDEV_NAME.len(), 31);
    assert!(SENSE_HAT_EVDEV_NAME.is_ascii());
}

#[test]
fn candidates_are_the_event_devices() {
    assert_eq!(DEVICE_PATTERN, "/dev/input/event*");
}

#[test]
fn the_exact_name_matches() {
    assert!(is_sense_hat_name(b"Raspberry Pi Sense HAT Joystick"));
    assert!(is_sense_hat_name(SENSE_HAT_EVDEV_NAME.as_bytes()));
}

#[test]
fn any_other_name_does_not_match() {
    assert!(!is_sense_hat_name(b""));
    assert!(!is_sense_hat_name(b"Raspberry Pi Sense HAT Joystic"));
    assert!(!is_sense_hat_name(b"Raspberry Pi Sense HAT Joystick\0"));
    assert!(!is_sense_hat_name(b"Raspberry Pi Sense HAT Joystick "));
    assert!(!is_sense_hat_name(b" Raspberry Pi Sense HAT Joystick"));
    assert!(!is_sense_hat_name(b"raspberry pi sense hat joystick"));
    assert!(!is_sense_hat_name(b"Raspberry Pi Sense HAT Joystock"));
    assert!(!is_sense_hat_name(b"Saspberry Pi Sense HAT Joystick"));
    assert!(!is_sense_hat_name(b"Raspberry Pi Sense HAT Joysticl"));
    assert!(!is_sense_hat_name(b"Logitech USB Keyboard"));
}

#[test]
fn a_probe_settles_the_search_unless_it_is_another_device() {
    assert!(joystick(3).settles());
    assert!(Probe::Unlisted.settles());
    assert!(Probe::Unopened.settles());
    assert!(!keyboard(3).settles());
    assert!(!Probe::Opened { fd: 3, name: vec![] }.settles());
}

#[test]
fn the_one_joystick_among_the_candidates_is_opened() {
    let probes = [keyboard(3), keyboard(4), joystick(5), keyboard(6)];
    assert_eq!(JoyStick::open(&probes).unwrap().fd(), 5);
}

#[test]
fn a_lone_joystick_is_opened() {
    assert_eq!(JoyStick::open(&[joystick(9)]).unwrap().fd(), 9);
}

#[test]
fn the_first_of_two_joysticks_is_opened() {
    let probes = [keyboard(3), joystick(4), joystick(5)];
    assert_eq!(JoyStick::open(&probes).unwrap().fd(), 4);
}

#[test]
fn no_joystick_among_the_candidates_is_not_found() {
    let probes = [keyboard(3), keyboard(4), keyboard(5)];
    assert_eq!(JoyStick::open(&probes).unwrap_err(), OpenError::NotFound);
}

#[test]
fn no_candidates_at_all_is_not_found() {
    assert_eq!(JoyStick::open(&[]).unwrap_err(), OpenError::NotFound);
}

#[test]
fn a_first_candidate_that_cannot_be_opened_fails_the_search() {
    let probes = [Probe::Unopened, joystick(4), keyboard(5)];
    assert_eq!(
        JoyStick::open(&probes).unwrap_err(),
        OpenError::DiscoveryIo { candidate: 0, operation: Operation::Open }
    );
}

#[test]
fn a_first_candidate_that_cannot_be_listed_fails_the_search() {
    let probes = [Probe::Unlisted, joystick(4)];
    assert_eq!(
        JoyStick::open(&probes).unwrap_err(),
        OpenError::DiscoveryIo { candidate: 0, operation: Operation::List }
    );
}

#[test]
fn a_failure_before_the_joystick_fails_the_search() {
    let probes = [keyboard(3), keyboard(4), Probe::Unopened, joystick(6)];
    assert_eq!(
        JoyStick::open(&probes).unwrap_err(),
        OpenError::DiscoveryIo { candidate: 2, operation: Operation::Open }
    );
}

#[test]
fn a_failure_after_the_joystick_is_never_met() {
    let probes = [keyboard(3), joystick(4), Probe::Unopened, Probe::Unlisted];
    assert_eq!(JoyStick::open(&probes).unwrap().fd(), 4);
}

#[test]
fn what_follows_the_settling_candidate_does_not_matter() {
    let tried = [keyboard(3), Probe::Unlisted];
    let longer = [keyboard(3), Probe::Unlisted, joystick(5), Probe::Unopened];
    assert_eq!(
        JoyStick::open(&tried).unwrap_err(),
        JoyStick::open(&longer).unwrap_err()
    );
    let tried = [keyboard(3), joystick(4)];
    let longer = [keyboard(3), joystick(4), joystick(5), Probe::Unopened];
    assert_eq!(
        JoyStick::open(&tried).unwrap().fd(),
        JoyStick::open(&longer).unwrap().fd()
    );
}

#[test]
fn a_failure_alone_is_no_not_found() {
    assert_ne!(
        JoyStick::open(&[Probe::Unopened]).unwrap_err(),
        OpenError::NotFound
    );
}

#[test]
fn a_device_with_a_longer_name_is_passed_over() {
    let probes = [
        Probe::Opened { fd: 3, name: b"Raspberry Pi Sense HAT Joystick 2".to_vec() },
        joystick(4),
    ];
    assert_eq!(JoyStick::open(&probes).unwrap().fd(), 4);
}
