use n4_panel::inputs::{process_input, DecodeError, DeviceInputEvent};

fn buttons(r: Result<DeviceInputEvent, DecodeError>) -> Vec<bool> {
    match r {
        Ok(DeviceInputEvent::ButtonStateChange(b)) => b,
        _ => panic!("expected a button report"),
    }
}

fn twists(r: Result<DeviceInputEvent, DecodeError>) -> Vec<i8> {
    match r {
        Ok(DeviceInputEvent::EncoderTwist(d)) => d,
        _ => panic!("expected a twist report"),
    }
}

fn presses(r: Result<DeviceInputEvent, DecodeError>) -> Vec<bool> {
    match r {
        Ok(DeviceInputEvent::EncoderStateChange(p)) => p,
        _ => panic!("expected a press report"),
    }
}

fn one_true_at(len: usize, slot: usize) -> Vec<bool> {
    let mut v = vec![false; len];
    v[slot] = true;
    v
}

#[test]
fn display_buttons_mark_their_own_slot() {
    for code in 1u8..=10 {
        let b = buttons(process_input(code, 1));
        assert_eq!(b, one_true_at(14, (code - 1) as usize));
    }
}

#[test]
fn display_buttons_with_zero_state_are_all_released() {
    for code in 1u8..=10 {
        let b = buttons(process_input(code, 0));
        assert_eq!(b, vec![false; 14]);
    }
}

#[test]
fn reset_report_is_all_released() {
    assert_eq!(buttons(process_input(0, 0)), vec![false; 14]);
    assert_eq!(buttons(process_input(0, 1)), vec![false; 14]);
    assert_eq!(buttons(process_input(0, 255)), vec![false; 14]);
}

#[test]
fn touch_buttons_mark_the_slots_after_the_display_buttons() {
    for code in 64u8..=67 {
        let b = buttons(process_input(code, 1));
        assert_eq!(b, one_true_at(14, (code - 54) as usize));
    }
}

#[test]
fn gesture_codes_are_rejected() {
    assert!(matches!(process_input(56, 0), Err(DecodeError::BadData)));
    assert!(matches!(process_input(56, 1), Err(DecodeError::BadData)));
    assert!(matches!(process_input(57, 0), Err(DecodeError::BadData)));
    assert!(matches!(process_input(57, 255), Err(DecodeError::BadData)));
}

#[test]
fn twist_codes_report_one_tick() {
    let table: [(u8, usize, i8); 8] = [
        (160, 0, -1),
        (161, 0, 1),
        (80, 1, -1),
        (81, 1, 1),
        (144, 2, -1),
        (145, 2, 1),
        (112, 3, -1),
        (113, 3, 1),
    ];
    for (code, encoder, delta) in table {
        let d = twists(process_input(code, 0));
        let mut expected = vec![0i8; 4];
        expected[encoder] = delta;
        assert_eq!(d, expected);
    }
}

#[test]
fn press_codes_mark_their_own_encoder() {
    let table: [(u8, usize); 4] = [(55, 0), (53, 1), (51, 2), (54, 3)];
    for (code, encoder) in table {
        let p = presses(process_input(code, 1));
        assert_eq!(p, one_true_at(4, encoder));

        let released = presses(process_input(code, 0));
        assert_eq!(released, vec![false; 4]);
    }
}

#[test]
fn unrecognized_codes_are_rejected() {
    assert!(matches!(process_input(200, 0), Err(DecodeError::BadData)));
    for code in [11u8, 50, 52, 58, 63, 68, 111, 146, 159, 162, 255] {
        assert!(matches!(process_input(code, 0), Err(DecodeError::BadData)));
        assert!(matches!(process_input(code, 1), Err(DecodeError::BadData)));
    }
}

fn same_by_value(
    a: &Result<DeviceInputEvent, DecodeError>,
    b: &Result<DeviceInputEvent, DecodeError>,
) -> bool {
    match (a, b) {
        (
            Ok(DeviceInputEvent::ButtonStateChange(x)),
            Ok(DeviceInputEvent::ButtonStateChange(y)),
        ) => x == y,
        (Ok(DeviceInputEvent::EncoderTwist(x)), Ok(DeviceInputEvent::EncoderTwist(y))) => x == y,
        (
            Ok(DeviceInputEvent::EncoderStateChange(x)),
            Ok(DeviceInputEvent::EncoderStateChange(y)),
        ) => x == y,
        (Err(DecodeError::BadData), Err(DecodeError::BadData)) => true,
        _ => false,
    }
}

#[test]
fn decoding_is_deterministic() {
    for code in 0u8..=255 {
        for state in [0u8, 1, 2, 255] {
            let first = process_input(code, state);
            let second = process_input(code, state);
            assert!(same_by_value(&first, &second));
        }
    }
}
