//! The report decoder: from a raw two-byte record to a structured event.

use vstd::prelude::*;

use crate::mappings::{ENCODER_COUNT, KEY_COUNT};

verus! {

/// A decoded input event. Every variant carries a fresh vector of fixed
/// length: `KEY_COUNT` for buttons, `ENCODER_COUNT` for encoders.
#[derive(Debug, Clone)]
pub enum DeviceInputEvent {
    /// New state of all button slots; at most one slot is active per report,
    /// and a report with code `0` means "no button currently active".
    ButtonStateChange(Vec<bool>),
    /// One discrete tick of a single encoder: exactly one entry is `-1` or
    /// `+1`, the rest are `0`.
    EncoderTwist(Vec<i8>),
    /// New pressed state of the encoders; at most one entry is set.
    EncoderStateChange(Vec<bool>),
}

/// A failed decode.
#[derive(Debug, Clone, Copy, PartialEq, Eq, Structural)]
pub enum DecodeError {
    /// The raw code matched no known control, or named a gesture slot that
    /// lies outside the button window.
    BadData,
}

/// The mathematical shape of a decoded event.
pub enum EventView {
    Buttons(Seq<bool>),
    Twists(Seq<i8>),
    Presses(Seq<bool>),
}

impl View for DeviceInputEvent {
    type V = EventView;

    open spec fn view(&self) -> EventView {
        match self {
            DeviceInputEvent::ButtonStateChange(b) => EventView::Buttons(b@),
            DeviceInputEvent::EncoderTwist(d) => EventView::Twists(d@),
            DeviceInputEvent::EncoderStateChange(p) => EventView::Presses(p@),
        }
    }
}

/// Codes of the ten display buttons.
pub open spec fn is_display_button_code(code: u8) -> bool {
    1 <= code <= 10
}

/// Codes of the four touch-panel buttons.
pub open spec fn is_touch_button_code(code: u8) -> bool {
    64 <= code <= 67
}

/// Codes that yield a button report: the all-released reset report (`0`),
/// the display buttons, and the touch-panel buttons.
pub open spec fn is_button_code(code: u8) -> bool {
    code == 0 || is_display_button_code(code) || is_touch_button_code(code)
}

/// Codes reserved for swipe gestures. Their slots fall outside the button
/// window, so the decoder rejects them instead of indexing out of range.
pub open spec fn is_gesture_code(code: u8) -> bool {
    code == 56 || code == 57
}

/// Codes that report one tick of a rotary encoder.
pub open spec fn is_twist_code(code: u8) -> bool {
    code == 160 || code == 161 || code == 80 || code == 81 || code == 144 || code == 145
        || code == 112 || code == 113
}

/// Codes that report an encoder press.
pub open spec fn is_press_code(code: u8) -> bool {
    code == 51 || code == 53 || code == 54 || code == 55
}

/// Button slot addressed by a button code (0-based).
pub open spec fn button_slot(code: u8) -> int
    recommends
        is_display_button_code(code) || is_touch_button_code(code),
{
    if is_display_button_code(code) {
        code - 1
    } else {
        code - 54
    }
}

/// The button report for a given code and state byte: all slots released,
/// except that a nonzero code marks its own slot when the state is nonzero.
pub open spec fn button_report(code: u8, state: u8) -> Seq<bool>
    recommends
        is_button_code(code),
{
    Seq::new(KEY_COUNT as nat, |i: int| code != 0 && i == button_slot(code) && state != 0)
}

/// Encoder addressed by a twist code (0-based, left to right).
pub open spec fn twist_encoder(code: u8) -> int
    recommends
        is_twist_code(code),
{
    if code == 160 || code == 161 {
        0int
    } else if code == 80 || code == 81 {
        1int
    } else if code == 144 || code == 145 {
        2int
    } else {
        3int
    }
}

/// Direction of the tick a twist code reports.
pub open spec fn twist_delta(code: u8) -> i8
    recommends
        is_twist_code(code),
{
    if code == 161 || code == 81 || code == 145 || code == 113 {
        1i8
    } else {
        (-1i8)
    }
}

/// The twist report for a given code: one tick on its own encoder,
/// zero everywhere else.
pub open spec fn twist_report(code: u8) -> Seq<i8>
    recommends
        is_twist_code(code),
{
    Seq::new(
        ENCODER_COUNT as nat,
        |i: int| if i == twist_encoder(code) { twist_delta(code) } else { 0i8 },
    )
}

/// Encoder addressed by a press code (0-based, left to right).
pub open spec fn encoder_slot(code: u8) -> int
    recommends
        is_press_code(code),
{
    if code == 55 {
        0int
    } else if code == 53 {
        1int
    } else if code == 51 {
        2int
    } else {
        3int
    }
}

/// The press report for a given code and state byte: the addressed encoder
/// holds `state != 0`, every other entry is `false`.
pub open spec fn press_report(code: u8, state: u8) -> Seq<bool>
    recommends
        is_press_code(code),
{
    Seq::new(ENCODER_COUNT as nat, |i: int| i == encoder_slot(code) && state != 0)
}

/// The full decode relation: the event or error that a raw report yields.
/// Gesture codes and unknown codes both fall to `BadData`.
pub open spec fn spec_decode(code: u8, state: u8) -> Result<EventView, DecodeError> {
    if is_button_code(code) {
        Ok(EventView::Buttons(button_report(code, state)))
    } else if is_twist_code(code) {
        Ok(EventView::Twists(twist_report(code)))
    } else if is_press_code(code) {
        Ok(EventView::Presses(press_report(code, state)))
    } else {
        Err(DecodeError::BadData)
    }
}

/// What `process_input` promises of its result: the returned event's view, or
/// the returned error, is exactly what `spec_decode` yields for the report.
pub open spec fn decode_post(code: u8, state: u8, r: Result<DeviceInputEvent, DecodeError>) -> bool {
    match r {
        Ok(event) => spec_decode(code, state) == Ok::<EventView, DecodeError>(event@),
        Err(e) => spec_decode(code, state) == Err::<EventView, DecodeError>(e),
    }
}

/// A display-button report marks exactly the slot of its code: slot
/// `code - 1` holds `state != 0`, every other slot is released. With a zero
/// state byte the whole report is released.
pub proof fn lemma_display_button_report(code: u8, state: u8)
    requires
        1 <= code <= 10,
    ensures
        spec_decode(code, state) == Ok::<EventView, DecodeError>(
            EventView::Buttons(button_report(code, state)),
        ),
        button_report(code, state).len() == KEY_COUNT,
        forall|i: int|
            0 <= i < KEY_COUNT ==> (button_report(code, state)[i] <==> (i == code - 1 && state
                != 0)),
{
}

/// A report with code `0` is the full-release report: every button slot is
/// `false`, whatever the state byte holds.
pub proof fn lemma_reset_report(state: u8)
    ensures
        spec_decode(0, state) == Ok::<EventView, DecodeError>(
            EventView::Buttons(button_report(0, state)),
        ),
        button_report(0, state).len() == KEY_COUNT,
        forall|i: int| 0 <= i < KEY_COUNT ==> !button_report(0, state)[i],
{
}

/// A touch-button report with a nonzero state byte marks exactly slot
/// `code - 54`. The touch panel only ever reports an activated state, so
/// press and release cannot be told apart at this layer.
pub proof fn lemma_touch_button_report(code: u8, state: u8)
    requires
        64 <= code <= 67,
        state != 0,
    ensures
        spec_decode(code, state) == Ok::<EventView, DecodeError>(
            EventView::Buttons(button_report(code, state)),
        ),
        button_report(code, state).len() == KEY_COUNT,
        forall|i: int| 0 <= i < KEY_COUNT ==> (button_report(code, state)[i] <==> i == code - 54),
{
}

/// The gesture codes are rejected as bad data: their slots lie outside the
/// button window, so no button report is built for them.
pub proof fn lemma_gesture_codes_rejected(code: u8, state: u8)
    requires
        code == 56 || code == 57,
    ensures
        spec_decode(code, state) == Err::<EventView, DecodeError>(DecodeError::BadData),
{
}

/// A twist report carries exactly one tick: its own encoder holds the code's
/// delta, `+1` or `-1`, and every other entry is zero.
pub proof fn lemma_twist_report(code: u8, state: u8)
    requires
        is_twist_code(code),
    ensures
        spec_decode(code, state) == Ok::<EventView, DecodeError>(
            EventView::Twists(twist_report(code)),
        ),
        twist_report(code).len() == ENCODER_COUNT,
        0 <= twist_encoder(code) < ENCODER_COUNT,
        twist_report(code)[twist_encoder(code)] == twist_delta(code),
        twist_delta(code) == 1i8 || twist_delta(code) == -1i8,
        forall|i: int|
            0 <= i < ENCODER_COUNT && i != twist_encoder(code) ==> twist_report(code)[i] == 0i8,
{
}

/// An encoder-press report marks exactly its own encoder with `state != 0`;
/// every other entry is `false`.
pub proof fn lemma_press_report(code: u8, state: u8)
    requires
        is_press_code(code),
    ensures
        spec_decode(code, state) == Ok::<EventView, DecodeError>(
            EventView::Presses(press_report(code, state)),
        ),
        press_report(code, state).len() == ENCODER_COUNT,
        0 <= encoder_slot(code) < ENCODER_COUNT,
        press_report(code, state)[encoder_slot(code)] == (state != 0),
        forall|i: int|
            0 <= i < ENCODER_COUNT && i != encoder_slot(code) ==> !press_report(code, state)[i],
{
}

/// Decoding is deterministic: the decoder's contract pins its result to one
/// value per raw report, so any two results it allows for the same report
/// are equal by value.
pub proof fn lemma_decode_deterministic(
    code: u8,
    state: u8,
    r1: Result<DeviceInputEvent, DecodeError>,
    r2: Result<DeviceInputEvent, DecodeError>,
)
    requires
        decode_post(code, state, r1),
        decode_post(code, state, r2),
    ensures
        r1 is Ok <==> r2 is Ok,
        r1 matches Ok(e1) ==> (r2 matches Ok(e2) && e1@ == e2@),
        r1 matches Err(e1) ==> (r2 matches Err(e2) && e1 == e2),
{
}

/// Decodes one raw report. Dispatches on the report code into the button,
/// encoder-twist and encoder-press families; any other code is `BadData`.
/// The decoder holds no state: a failure does not affect later calls.
pub fn process_input(input: u8, state: u8) -> (r: Result<DeviceInputEvent, DecodeError>)
    ensures
        decode_post(input, state, r),
{
    match input {
        0..=10 | 64..=67 | 56 | 57 => read_button_press(input, state),
        160 | 161 | 80 | 81 | 144 | 145 | 112 | 113 => read_encoder_value(input),
        51 | 53 | 54 | 55 => read_encoder_press(input, state),
        _ => Err(DecodeError::BadData),
    }
}

/// Reads one boolean per button slot out of a raw report buffer, skipping
/// the leading report id byte: slot `i` is taken from byte `i + 1`.
pub fn read_button_states(states: &[u8]) -> (r: Vec<bool>)
    requires
        states@.len() >= KEY_COUNT + 1,
    ensures
        r@ == Seq::new(KEY_COUNT as nat, |i: int| states@[i + 1] != 0),
{
    let mut bools: Vec<bool> = Vec::new();

    for i in 0..KEY_COUNT
        invariant
            states@.len() >= KEY_COUNT + 1,
            bools@ =~= Seq::new(i as nat, |j: int| states@[j + 1] != 0),
    {
        bools.push(states[i + 1] != 0);
    }

    assert(bools@ =~= Seq::new(KEY_COUNT as nat, |i: int| states@[i + 1] != 0));
    bools
}

/// Decodes a report from the button family into a full button report.
/// The two gesture codes address slots outside the button window and are
/// rejected rather than written past the report.
fn read_button_press(input: u8, state: u8) -> (r: Result<DeviceInputEvent, DecodeError>)
    requires
        is_button_code(input) || is_gesture_code(input),
    ensures
        decode_post(input, state, r),
{
    if input == 56 || input == 57 {
        return Err(DecodeError::BadData);
    }

    // A raw report image: the report id byte, then one byte per slot.
    let mut button_states: Vec<u8> = Vec::new();
    button_states.push(0x01);
    let mut i: usize = 0;
    while i < KEY_COUNT + 1
        invariant
            i <= KEY_COUNT + 1,
            button_states@.len() == i + 1,
            forall|j: int| 1 <= j < button_states@.len() ==> button_states@[j] == 0u8,
        decreases KEY_COUNT + 1 - i,
    {
        button_states.push(0u8);
        i += 1;
    }

    if input == 0 {
        let bools = read_button_states(button_states.as_slice());
        assert(bools@ =~= button_report(0, state));
        return Ok(DeviceInputEvent::ButtonStateChange(bools));
    }

    let pressed_index: usize = match input {
        // the ten display buttons
        1..=10 => input as usize,
        // the four touch-panel buttons, right after the display buttons
        64..=67 => (input as usize) - 53,
        _ => {
            return Err(DecodeError::BadData);
        },
    };

    button_states.set(pressed_index, state);

    let bools = read_button_states(button_states.as_slice());
    assert(bools@ =~= button_report(input, state));
    Ok(DeviceInputEvent::ButtonStateChange(bools))
}

/// Decodes a twist report: exactly one encoder entry becomes the tick's
/// direction, every other entry stays zero.
fn read_encoder_value(input: u8) -> (r: Result<DeviceInputEvent, DecodeError>)
    requires
        is_twist_code(input),
    ensures
        r matches Ok(e) && e@ == EventView::Twists(twist_report(input)),
{
    let mut encoder_values: Vec<i8> = Vec::new();
    let mut i: usize = 0;
    while i < ENCODER_COUNT
        invariant
            i <= ENCODER_COUNT,
            encoder_values@.len() == i,
            forall|j: int| 0 <= j < i ==> encoder_values@[j] == 0i8,
        decreases ENCODER_COUNT - i,
    {
        encoder_values.push(0i8);
        i += 1;
    }

    let (encoder, value): (usize, i8) = match input {
        // left-most encoder
        160 => (0, -1),
        161 => (0, 1),
        // middle-left encoder
        80 => (1, -1),
        81 => (1, 1),
        // middle-right encoder
        144 => (2, -1),
        145 => (2, 1),
        // right-most encoder
        112 => (3, -1),
        113 => (3, 1),
        _ => {
            return Err(DecodeError::BadData);
        },
    };

    encoder_values.set(encoder, value);
    assert(encoder_values@ =~= twist_report(input));
    Ok(DeviceInputEvent::EncoderTwist(encoder_values))
}

/// Decodes an encoder press report. The hardware only ever sends a pressed
/// state; no released report exists, and none is synthesized here. Any
/// release or timeout logic belongs to the consumer.
fn read_encoder_press(input: u8, state: u8) -> (r: Result<DeviceInputEvent, DecodeError>)
    requires
        is_press_code(input),
    ensures
        decode_post(input, state, r),
{
    let mut encoder_states: Vec<bool> = Vec::new();
    let mut i: usize = 0;
    while i < ENCODER_COUNT
        invariant
            i <= ENCODER_COUNT,
            encoder_states@.len() == i,
            forall|j: int| 0 <= j < i ==> encoder_states@[j] == false,
        decreases ENCODER_COUNT - i,
    {
        encoder_states.push(false);
        i += 1;
    }

    let encoder: usize = match input {
        // left-most encoder
        55 => 0,
        // middle-left encoder
        53 => 1,
        // middle-right encoder
        51 => 2,
        // right-most encoder
        54 => 3,
        _ => {
            return Err(DecodeError::BadData);
        },
    };

    encoder_states.set(encoder, state != 0);
    assert(encoder_states@ =~= press_report(input, state));
    Ok(DeviceInputEvent::EncoderStateChange(encoder_states))
}

} // verus!
