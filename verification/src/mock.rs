use vstd::prelude::*;

use crate::config::TunConfig;
use crate::device::TunDevice;
use crate::error::TunError;
use crate::provider::Tun;
use crate::provider::TunProvider;

verus! {

/// A deterministic, in-memory tunnel provider.
///
/// It stands in for a platform backend where none is wanted: instead of
/// asking the OS for a device it hands out a [`TunDevice`] built from a
/// preconfigured interface name and descriptor, so that the factory and
/// device contracts can be exercised without OS resources or privilege.
/// Like a real provider it rejects an address-less configuration, since it
/// does not support address-less interfaces.
pub struct MockTunProvider {
    name: String,
    fd: i32,
}

impl MockTunProvider {
    /// The interface name this provider assigns to every device it creates.
    pub closed spec fn name_spec(&self) -> Seq<char> {
        self.name@
    }

    /// The descriptor this provider assigns to every device it creates.
    pub closed spec fn fd_spec(&self) -> i32 {
        self.fd
    }

    /// Create a provider that will assign the given interface name and
    /// descriptor.  The name must be non-empty and the descriptor valid,
    /// exactly as an OS would report them; anything else is rejected.
    pub fn new(name: String, fd: i32) -> (r: Result<MockTunProvider, TunError>)
        ensures
            (name@.len() > 0 && fd >= 0) ==> (r matches Ok(p) && p.wf() && p.name_spec() == name@
                && p.fd_spec() == fd),
            !(name@.len() > 0 && fd >= 0) ==> (r matches Err(e) && e is InvalidConfiguration),
    {
        if name.as_str().is_empty() || fd < 0 {
            Err(TunError::InvalidConfiguration)
        } else {
            Ok(MockTunProvider { name, fd })
        }
    }
}

impl TunProvider for MockTunProvider {
    type Device = TunDevice;

    open spec fn wf(&self) -> bool {
        self.name_spec().len() > 0 && self.fd_spec() >= 0
    }

    open spec fn create_spec(&self, config: TunConfig, r: Result<TunDevice, TunError>) -> bool {
        if config.addresses@.len() == 0 {
            r == Result::<TunDevice, TunError>::Err(TunError::InvalidConfiguration)
        } else {
            r matches Ok(t) && t.name_spec() == self.name_spec() && t.raw_fd_spec()
                == self.fd_spec()
        }
    }

    fn create_tun(&self, config: TunConfig) -> (r: Result<TunDevice, TunError>) {
        if config.addresses.len() == 0 {
            Err(TunError::InvalidConfiguration)
        } else {
            let name = self.name.clone();
            match TunDevice::from_parts(name, self.fd) {
                Ok(t) => Ok(t),
                Err(e) => Err(e),
            }
        }
    }
}

} // verus!
