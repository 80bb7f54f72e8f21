//! Layout constants and the table of supported hardware variants.

use vstd::prelude::*;

verus! {

/// Number of button slots in every button report: ten display buttons plus
/// four touch-panel buttons.
pub const KEY_COUNT: usize = 14;

/// Number of rotary encoders in every encoder report.
pub const ENCODER_COUNT: usize = 4;

/// Rows of display buttons on the panel.
pub const ROW_COUNT: usize = 3;

/// Columns of display buttons on the panel.
pub const COL_COUNT: usize = 5;

/// USB vendor id shared by the supported panels.
pub const MIRABOX_VID: u16 = 0x6603;

/// USB product id of the N4 panel.
pub const N4_PID: u16 = 0x1007;

/// The hardware variants this library understands.
#[derive(Debug, Clone)]
pub enum Kind {
    N4,
}

impl Kind {
    /// The name shown for a panel of this kind. The USB stack's own
    /// manufacturer and product strings are not used.
    pub open spec fn spec_human_name(self) -> Seq<char> {
        match self {
            Kind::N4 => "Mirabox N4"@,
        }
    }

    /// Matches a device's VID+PID pair to the kind of panel it is,
    /// `None` for unknown hardware.
    pub fn from_vid_pid(vid: u16, pid: u16) -> (r: Option<Self>)
        ensures
            r is Some <==> (vid == MIRABOX_VID && pid == N4_PID),
            r matches Some(k) ==> k is N4,
    {
        match vid {
            MIRABOX_VID => match pid {
                N4_PID => Some(Kind::N4),
                _ => None,
            },

            _ => None,
        }
    }

    /// There is no point relying on manufacturer/device names reported by the
    /// USB stack, so a fixed name is returned for each kind of device.
    pub fn human_name(&self) -> (r: String)
        ensures
            r@ == self.spec_human_name(),
    {
        let name: &str = match self {
            Kind::N4 => "Mirabox N4",
        };
        name.to_owned()
    }

    /// Protocol version the panel speaks.
    pub fn protocol_version(&self) -> (r: usize)
        ensures
            r == 3,
    {
        3
    }
}

} // verus!
