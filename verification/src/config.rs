//! Process configuration as an explicit value: the zone name every search
//! runs in and the touch-mode display flag, created once at startup by the
//! surrounding program and passed by reference.

use vstd::prelude::*;

verus! {

/// Read-only process configuration.
pub struct Config {
    pub timezone: String,
    pub touch_mode: bool,
}

/// Whether touch mode (buttons instead of links) is enabled.
pub fn is_touch_mode(config: &Config) -> (r: bool)
    ensures
        r == config.touch_mode,
{
    config.touch_mode
}

} // verus!
