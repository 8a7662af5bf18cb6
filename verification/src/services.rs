//! Service flags, held as the integer that travels in the handshake.

use bitcoin::network::constants::ServiceFlags;
use vstd::prelude::*;

verus! {

/// Whether every service bit of `wanted` is also set in `offered`.
pub open spec fn has_services(offered: u64, wanted: u64) -> bool {
    (offered | wanted) == offered
}

/// Calls `ServiceFlags::has` of the `bitcoin` crate on the two bit masks.
///
/// Trusted: the answer is `true` exactly when or-ing `wanted` into `offered`
/// changes nothing.
#[verifier::external_body]
pub(crate) fn offers(offered: u64, wanted: u64) -> (yes: bool)
    ensures
        yes == has_services(offered, wanted),
{
    ServiceFlags::from(offered).has(ServiceFlags::from(wanted))
}

/// Reads `ServiceFlags::NONE` of the `bitcoin` crate as an integer.
///
/// Trusted: the mask that asks for no service has no bit set.
#[verifier::external_body]
pub(crate) fn no_services() -> (flags: u64)
    ensures
        flags == 0,
{
    ServiceFlags::NONE.to_u64()
}

} // verus!
