//! The runtime switches of the pet.

use vstd::prelude::*;

verus! {

/// Switches the user can flip while the pet runs.
#[derive(Clone, Copy, Debug, PartialEq, Eq, Structural)]
pub struct RuntimeFlags {
    pub do_not_disturb: bool,
    pub self_talk_enabled: bool,
    pub system_control_enabled: bool,
}

impl Default for RuntimeFlags {
    /// At start the pet may talk on its own, does not hold back, and may not
    /// control the system.
    fn default() -> (r: Self)
        ensures
            !r.do_not_disturb,
            r.self_talk_enabled,
            !r.system_control_enabled,
    {
        RuntimeFlags { do_not_disturb: false, self_talk_enabled: true, system_control_enabled: false }
    }
}

} // verus!
