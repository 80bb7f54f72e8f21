use n4_panel::inputs::{process_input, DeviceInputEvent};
use n4_panel::mappings::{Kind, COL_COUNT, ENCODER_COUNT, KEY_COUNT, MIRABOX_VID, N4_PID, ROW_COUNT};

#[test]
fn n4_vid_pid_is_recognized() {
    assert!(matches!(Kind::from_vid_pid(0x6603, 0x1007), Some(Kind::N4)));
    assert!(matches!(Kind::from_vid_pid(MIRABOX_VID, N4_PID), Some(Kind::N4)));
}

#[test]
fn unknown_vid_pid_is_not_recognized() {
    assert!(Kind::from_vid_pid(0x6603, 0x1008).is_none());
    assert!(Kind::from_vid_pid(0x6604, 0x1007).is_none());
    assert!(Kind::from_vid_pid(0, 0).is_none());
}

#[test]
fn n4_reports_its_fixed_name() {
    assert_eq!(Kind::N4.human_name(), "Mirabox N4");
}

#[test]
fn n4_speaks_protocol_version_three() {
    assert_eq!(Kind::N4.protocol_version(), 3);
}

#[test]
fn layout_constants_agree_with_the_report_shapes() {
    assert_eq!(KEY_COUNT, 14);
    assert_eq!(ENCODER_COUNT, 4);
    assert_eq!(ROW_COUNT, 3);
    assert_eq!(COL_COUNT, 5);

    if let Ok(DeviceInputEvent::ButtonStateChange(b)) = process_input(0, 0) {
        assert_eq!(b.len(), KEY_COUNT);
    } else {
        panic!("expected a button report");
    }
    if let Ok(DeviceInputEvent::EncoderTwist(d)) = process_input(160, 0) {
        assert_eq!(d.len(), ENCODER_COUNT);
    } else {
        panic!("expected a twist report");
    }
}

#[test]
fn raw_button_buffer_is_read_behind_the_report_id() {
    let mut raw = vec![0u8; 16];
    raw[0] = 0x01;
    raw[5] = 7;
    let states = n4_panel::inputs::read_button_states(&raw);
    assert_eq!(states.len(), 14);
    for (i, s) in states.iter().enumerate() {
        assert_eq!(*s, i == 4);
    }
}
