use vstd::prelude::*;

use crate::address::IpAddress;

verus! {

/// Configuration for creating a tunnel device: the IP addresses to assign
/// to the interface, in the order the caller gave them.
///
/// An immutable value object.  No validation is performed here: whether the
/// address list may be empty, or may mix families, is for the concrete
/// provider to decide when the device is created.
pub struct TunConfig {
    /// IP addresses for the tunnel interface.
    pub addresses: Vec<IpAddress>,
}

impl TunConfig {
    /// Create a new tunnel device configuration using the specified tunnel
    /// addresses, preserving their order and count exactly.
    pub fn new(addresses: Vec<IpAddress>) -> (r: TunConfig)
        ensures
            r.addresses@ == addresses@,
    {
        TunConfig { addresses }
    }
}

} // verus!
