//! Dual-channel orchestration: reads try the Rescue channel first and fall
//! back to FIDO on any Rescue failure; writes are routed exclusively by the
//! method that produced the last successful read, with no fallback —
//! writing over the wrong channel could corrupt device state.

use vstd::prelude::*;

use crate::types::DeviceMethod;
use crate::types::FullDeviceStatus;
use crate::types::PFError;

verus! {

/// Picks the status read to report: the Rescue result when it succeeded,
/// otherwise whatever the FIDO fallback produced — so a device whose
/// Rescue applet is not selectable is still readable over FIDO, and a
/// failed SELECT yields a status carrying `DeviceMethod::Fido`.
pub fn choose_status(
    rescue: Result<FullDeviceStatus, PFError>,
    fido: Result<FullDeviceStatus, PFError>,
) -> (r: Result<FullDeviceStatus, PFError>)
    ensures
        rescue is Ok ==> r == rescue,
        rescue is Err ==> r == fido,
{
    match rescue {
        Ok(st) => Ok(st),
        Err(_) => fido,
    }
}

/// Whether a write for a status read by the given method goes over the
/// FIDO channel; Rescue writes go over the smart-card channel, and no
/// write ever falls back to the other channel.
pub fn write_goes_over_fido(method: DeviceMethod) -> (r: bool)
    ensures
        r == (method == DeviceMethod::Fido),
{
    method == DeviceMethod::Fido
}

} // verus!
