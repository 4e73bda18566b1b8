use vstd::prelude::*;

verus! {

/// Immutable run-time configuration, fixed for the life of the process.
/// The update interval is held as a millisecond count.
pub struct Settings {
    pub update_interval_ms: u64,
    pub show_network: bool,
    pub show_disk: bool,
}

impl Default for Settings {
    fn default() -> (r: Settings)
        ensures
            r.update_interval_ms == 1000,
            r.show_network,
            r.show_disk,
    {
        Settings { update_interval_ms: 1000, show_network: true, show_disk: true }
    }
}

impl Settings {
    pub fn new() -> (r: Settings)
        ensures
            r.update_interval_ms == 1000,
            r.show_network,
            r.show_disk,
    {
        Settings::default()
    }
}

} // verus!
