//! Trusted declarations for the bootstrap specs adapter.
//!
//! The adapter itself (parsing and serving bootstrap configuration data) is an
//! external collaborator: this library only constructs it from a decoded text
//! payload and then owns it through the registry.

use vstd::prelude::*;

verus! {

#[verifier::external_type_specification]
#[verifier::external_body]
pub struct ExStatsigBootstrapSpecsAdapter(statsig_rust::StatsigBootstrapSpecsAdapter);

/// Relies on `StatsigBootstrapSpecsAdapter::new`: it stores the given payload
/// text in a fresh adapter; it performs no I/O and does not panic.
#[verifier::external_body]
pub(crate) fn new_bootstrap_adapter(data: String) -> statsig_rust::StatsigBootstrapSpecsAdapter {
    statsig_rust::StatsigBootstrapSpecsAdapter::new(data)
}

} // verus!
