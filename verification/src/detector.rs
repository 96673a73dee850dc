//! Platform detection: interpreting the capability probe and selecting the
//! TEE variant.

use vstd::prelude::*;
use crate::types::TeeType;

verus! {

/// What a probe outcome means: the platform counts as detected only when the
/// probe confirmed it. A probe failure is "not detected", never an error.
pub open spec fn probe_detected<E>(probe: Result<bool, E>) -> bool {
    match probe {
        Ok(found) => found,
        Err(_) => false,
    }
}

/// Decides whether this host supports the TDX + vTPM evidence path, given
/// the outcome of the confidential-VM probe.
///
/// Detection never raises: any probe failure (missing device, permission
/// error, platform API error) yields `false` and excludes the variant from
/// consideration; it is not an attestation failure.
pub fn detect_platform<E>(probe: Result<bool, E>) -> (detected: bool)
    ensures
        detected == probe_detected(probe),
        probe is Err ==> !detected,
{
    match probe {
        Ok(found) => found,
        Err(_) => false,
    }
}

/// Selects the one TEE variant this process will use: the first registered
/// variant whose detection probe confirmed support wins. With no match,
/// selection fails — there is no generic software-only fallback.
pub fn detect_tee_type<E>(az_tdx_vtpm_probe: Result<bool, E>) -> (selected: Option<TeeType>)
    ensures
        probe_detected(az_tdx_vtpm_probe) ==> selected == Some(TeeType::AzTdxVtpm),
        !probe_detected(az_tdx_vtpm_probe) ==> selected is None,
{
    if detect_platform(az_tdx_vtpm_probe) {
        Some(TeeType::AzTdxVtpm)
    } else {
        None
    }
}

} // verus!
