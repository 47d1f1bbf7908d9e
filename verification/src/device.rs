use vstd::prelude::*;

use crate::error::TunError;
use crate::provider::Tun;

verus! {

/// A descriptor-based tunnel device: an OS-assigned interface name together
/// with the raw descriptor the OS opened for the device.
///
/// A platform backend performs the OS device-creation call and then
/// assembles the device it hands to its caller with
/// [`TunDevice::from_parts`], which validates what the OS reported.  The
/// value owns the device exclusively; releasing it consumes it, so the
/// underlying resource is given up exactly once.
pub struct TunDevice {
    name: String,
    fd: i32,
}

impl TunDevice {
    /// Assemble a device from what the OS reported for a freshly created
    /// interface: its assigned name and its raw descriptor.
    ///
    /// An empty name or a negative descriptor means the creation call did
    /// not produce a usable device; that, and only that, is reported as a
    /// wrapped OS failure.
    pub fn from_parts(name: String, fd: i32) -> (r: Result<TunDevice, TunError>)
        ensures
            (name@.len() > 0 && fd >= 0) ==> (r matches Ok(t) && t.wf() && t.name_spec() == name@
                && t.raw_fd_spec() == fd),
            !(name@.len() > 0 && fd >= 0) ==> (r matches Err(e) && e is UnderlyingOsFailure),
    {
        if name.as_str().is_empty() {
            Err(TunError::UnderlyingOsFailure("created device has no interface name".to_string()))
        } else if fd < 0 {
            Err(TunError::UnderlyingOsFailure("created device has no valid descriptor".to_string()))
        } else {
            Ok(TunDevice { name, fd })
        }
    }
}

impl Tun for TunDevice {
    closed spec fn wf(&self) -> bool {
        self.name@.len() > 0 && self.fd >= 0
    }

    closed spec fn name_spec(&self) -> Seq<char> {
        self.name@
    }

    closed spec fn raw_fd_spec(&self) -> i32 {
        self.fd
    }

    proof fn lemma_wf(&self) {
    }

    fn interface_name(&self) -> (r: &str) {
        self.name.as_str()
    }

    fn raw_fd(&self) -> (r: i32) {
        self.fd
    }

    fn release(self) {
    }
}

} // verus!
