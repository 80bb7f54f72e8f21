//! Decoder for the raw input reports of a Mirabox N4 control panel.
//!
//! The panel delivers each input event as a two-byte record: a report code
//! that identifies the physical control, and a state byte. The decoder is a
//! pure, stateless transform from that record to a structured event (a button
//! state change, an encoder twist, or an encoder press) or to a decode error
//! when the code matches no known control. Transport I/O, image formatting
//! and device enumeration live outside this crate.

pub mod inputs;
pub mod mappings;
