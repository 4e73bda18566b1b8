use vstd::prelude::*;

verus! {

/// The external metric source: a handle onto the host's tracked state.
/// Opaque here; what it reports depends on the machine, so nothing is
/// assumed about the values its getters return.
#[verifier::external_type_specification]
#[verifier::external_body]
pub struct ExSystem(sysinfo::System);

/// Relies on sysinfo::System::total_memory: total RAM in bytes.
pub assume_specification[ sysinfo::System::total_memory ](s: &sysinfo::System) -> u64;

/// Relies on sysinfo::System::used_memory: used RAM in bytes.
pub assume_specification[ sysinfo::System::used_memory ](s: &sysinfo::System) -> u64;

/// Relies on sysinfo::System::available_memory: RAM available for (re)use,
/// in bytes.
pub assume_specification[ sysinfo::System::available_memory ](s: &sysinfo::System) -> u64;

} // verus!
