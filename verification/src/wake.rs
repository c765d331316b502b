//! The fixed set of OS wake-state capabilities that the program can assert.

use vstd::prelude::*;

verus! {

/// Bit mask asking the OS to keep the system (CPU) from sleeping.
pub const ES_SYSTEM_REQUIRED: u32 = 0x00000001;

/// Bit mask asking the OS to keep the display from turning off.
pub const ES_DISPLAY_REQUIRED: u32 = 0x00000002;

/// One OS-level "stay awake" capability. The set of variants is closed:
/// exactly these two exist, each with a fixed bit mask and a fixed name.
#[derive(Clone, Copy, Debug, PartialEq, Eq, Structural)]
pub enum WakeMode {
    /// Keep the system (CPU) from sleeping.
    SystemRequired,
    /// Keep the display from turning off.
    DisplayRequired,
}

impl WakeMode {
    /// The bit mask that the OS primitive is invoked with for this mode.
    pub open spec fn spec_bit(self) -> u32 {
        match self {
            WakeMode::SystemRequired => ES_SYSTEM_REQUIRED,
            WakeMode::DisplayRequired => ES_DISPLAY_REQUIRED,
        }
    }

    /// The human-readable name of this mode, printed for observability.
    pub open spec fn spec_name(self) -> Seq<char> {
        match self {
            WakeMode::SystemRequired => "ES_SYSTEM_REQUIRED"@,
            WakeMode::DisplayRequired => "ES_DISPLAY_REQUIRED"@,
        }
    }

    /// Returns the bit mask for this mode.
    pub fn bit(&self) -> (b: u32)
        ensures
            b == self.spec_bit(),
    {
        match self {
            WakeMode::SystemRequired => ES_SYSTEM_REQUIRED,
            WakeMode::DisplayRequired => ES_DISPLAY_REQUIRED,
        }
    }

    /// Returns the human-readable name of this mode.
    pub fn name(&self) -> (s: String)
        ensures
            s@ == self.spec_name(),
    {
        match self {
            WakeMode::SystemRequired => "ES_SYSTEM_REQUIRED".to_owned(),
            WakeMode::DisplayRequired => "ES_DISPLAY_REQUIRED".to_owned(),
        }
    }
}

} // verus!
