use vstd::prelude::*;

verus! {

/// POSIX `EPERM`: operation not permitted.
pub const OS_EPERM: i32 = 1;

/// POSIX `ENOMEM`: out of memory.
pub const OS_ENOMEM: i32 = 12;

/// POSIX `EACCES`: permission denied.
pub const OS_EACCES: i32 = 13;

/// POSIX `EINVAL`: invalid argument.
pub const OS_EINVAL: i32 = 22;

/// POSIX `ENFILE`: file table overflow.
pub const OS_ENFILE: i32 = 23;

/// POSIX `EMFILE`: too many open files.
pub const OS_EMFILE: i32 = 24;

/// A structured, inspectable error from tunnel device creation.
///
/// Providers return one of these kinds rather than a raw OS error code, so
/// that callers can map each kind to an actionable message.  A lower-level
/// OS failure is wrapped, not swallowed: its description travels in
/// [`TunError::UnderlyingOsFailure`].
#[derive(Clone, Debug, PartialEq, Eq)]
pub enum TunError {
    /// Tunnel devices cannot be created on this platform or in this build.
    UnsupportedPlatform,
    /// The caller lacks the OS privilege needed to create a virtual interface.
    InsufficientPrivilege,
    /// The OS has no more virtual interfaces (or related resources) to give.
    ResourceExhausted,
    /// The requested address configuration is invalid or contradictory for
    /// the platform.
    InvalidConfiguration,
    /// Any other lower-level OS failure during device creation, wrapped.
    UnderlyingOsFailure(String),
}

impl TunError {
    /// Classify a raw OS error from a failed device-creation call into the
    /// error taxonomy: privilege errors and resource-exhaustion errors get
    /// their own kinds, an invalid-argument error marks a configuration the
    /// platform rejects, and anything else is wrapped with its description.
    pub fn from_os_error(code: i32, description: String) -> (r: TunError)
        ensures
            (code == OS_EPERM || code == OS_EACCES) ==> r == TunError::InsufficientPrivilege,
            (code == OS_ENOMEM || code == OS_ENFILE || code == OS_EMFILE)
                ==> r == TunError::ResourceExhausted,
            code == OS_EINVAL ==> r == TunError::InvalidConfiguration,
            !(code == OS_EPERM || code == OS_EACCES || code == OS_ENOMEM || code == OS_ENFILE
                || code == OS_EMFILE || code == OS_EINVAL) ==> r == TunError::UnderlyingOsFailure(
                description,
            ),
    {
        if code == OS_EPERM || code == OS_EACCES {
            TunError::InsufficientPrivilege
        } else if code == OS_ENOMEM || code == OS_ENFILE || code == OS_EMFILE {
            TunError::ResourceExhausted
        } else if code == OS_EINVAL {
            TunError::InvalidConfiguration
        } else {
            TunError::UnderlyingOsFailure(description)
        }
    }
}

} // verus!
