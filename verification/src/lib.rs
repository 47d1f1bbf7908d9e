//! A cross-platform abstraction for creating and owning a virtual network
//! interface (a "tunnel device") through which a VPN client routes traffic.
//!
//! The crate exposes two contracts: [`TunProvider`], the factory that turns a
//! [`TunConfig`] into a live device, and [`Tun`], the capability a created
//! device must satisfy (a stable interface name and, on descriptor-based
//! platforms, a pollable raw descriptor).  Platform backends implement the
//! two traits; [`StubTunProvider`] is the inert implementation used where
//! tunnelling is unsupported or disabled.

pub mod address;
pub mod config;
pub mod device;
pub mod error;
pub mod mock;
pub mod provider;
pub mod stub;

pub use address::IpAddress;
pub use config::TunConfig;
pub use device::TunDevice;
pub use error::TunError;
pub use mock::MockTunProvider;
pub use provider::Tun;
pub use provider::TunProvider;
pub use stub::StubTun;
pub use stub::StubTunProvider;
