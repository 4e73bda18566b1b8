use vstd::prelude::*;

verus! {

/// One network interface: its name and the cumulative bytes received and
/// transmitted since the provider started tracking it. Counters, not
/// rates; callers wanting rates must difference consecutive frames.
#[derive(Debug)]
pub struct NetworkInfo {
    pub interface: String,
    pub received: u64,
    pub transmitted: u64,
}

/// Relies on sysinfo::Networks::new_with_refreshed_list: enumerates the
/// host's network interfaces fresh, each with its name and cumulative
/// received/transmitted byte counters. The list and the counters are
/// whatever the host reports at this instant.
#[verifier::external_body]
pub fn get_network_info() -> (r: Vec<NetworkInfo>) {
    let networks = sysinfo::Networks::new_with_refreshed_list();
    networks
        .iter()
        .map(
            |(name, data)| NetworkInfo {
                interface: name.clone(),
                received: data.received(),
                transmitted: data.transmitted(),
            },
        )
        .collect()
}

} // verus!
