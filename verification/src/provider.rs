use vstd::prelude::*;

use crate::config::TunConfig;
use crate::error::TunError;

verus! {

/// A live, open tunnel device.
///
/// A value of an implementing type owns the underlying OS resource
/// exclusively: the resource stays allocated for as long as the value
/// exists, and it is released exactly once, by [`Tun::release`], which
/// consumes the value.  Because release takes the device by value, a second
/// release of the same device is not expressible: double release is a
/// programming error that the type system rules out, not a recoverable
/// runtime condition.
///
/// This is the descriptor-based variant of the device capability, for
/// platforms whose tunnel devices are driven through a raw I/O descriptor;
/// a handle-based platform would select a variant of the contract without
/// [`Tun::raw_fd`] at build time.
pub trait Tun: Sized {
    /// Well-formedness: the device invariant every provider establishes on
    /// the devices it hands out.
    spec fn wf(&self) -> bool;

    /// The OS interface name of the device.
    spec fn name_spec(&self) -> Seq<char>;

    /// The raw I/O descriptor of the device.
    spec fn raw_fd_spec(&self) -> i32;

    /// A well-formed device carries a non-empty interface name and a
    /// non-negative (valid) descriptor.
    proof fn lemma_wf(&self)
        requires
            self.wf(),
        ensures
            self.name_spec().len() > 0,
            self.raw_fd_spec() >= 0,
    ;

    /// Retrieve the tunnel interface name.
    ///
    /// The name is fixed for the lifetime of the device: every call returns
    /// the same, non-empty string.
    fn interface_name(&self) -> (r: &str)
        requires
            self.wf(),
        ensures
            r@ == self.name_spec(),
    ;

    /// Retrieve the raw I/O descriptor of the device, valid until the
    /// device is released and compatible with the OS polling primitives.
    fn raw_fd(&self) -> (r: i32)
        requires
            self.wf(),
        ensures
            r == self.raw_fd_spec(),
    ;

    /// Release the underlying OS resource, consuming the device.
    fn release(self)
        requires
            self.wf(),
    ;
}

/// Factory of tunnel devices.
///
/// One provider is selected per process run, outlives every device it
/// creates, and may create many devices sequentially (one per
/// connect/reconnect cycle).  Each call of [`TunProvider::create_tun`]
/// either hands the caller exclusive ownership of a ready device or returns
/// a structured error, leaving no partially-created interface behind.
pub trait TunProvider: Sized {
    /// The concrete device type this provider creates.
    type Device: Tun;

    /// Well-formedness: the provider invariant its constructor establishes.
    spec fn wf(&self) -> bool;

    /// Which outcomes a creation call may have for a given configuration;
    /// each implementation pins its own behaviour here.
    spec fn create_spec(&self, config: TunConfig, r: Result<Self::Device, TunError>) -> bool;

    /// Create a tunnel device using the provided configuration.
    ///
    /// On success the returned device is fully owned by the caller, already
    /// named and ready for I/O.  On failure a structured error says why.
    fn create_tun(&self, config: TunConfig) -> (r: Result<Self::Device, TunError>)
        requires
            self.wf(),
        ensures
            self.create_spec(config, r),
            r matches Ok(t) ==> t.wf(),
    ;
}

/// Every device a well-formed provider successfully creates satisfies the
/// device contract: its interface name is non-empty, its name and
/// descriptor are fixed (every read of either returns the same value), and
/// its descriptor is non-negative.
pub proof fn lemma_created_device_ready<T: Tun>(t: &T)
    requires
        t.wf(),
    ensures
        t.name_spec().len() > 0,
        t.raw_fd_spec() >= 0,
{
    t.lemma_wf();
}

} // verus!
