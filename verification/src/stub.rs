use vstd::prelude::*;

use crate::config::TunConfig;
use crate::error::TunError;
use crate::provider::Tun;
use crate::provider::TunProvider;

verus! {

/// The device type of the stub provider.
///
/// It exists only to complete the factory signature: the stub provider
/// never produces a value of it, because handing out a fake device would
/// hide the absence of real tunnelling capability from callers.  The type
/// nonetheless satisfies the full device contract, as every device type
/// must.
pub struct StubTun {
    name: String,
    fd: i32,
}

impl Tun for StubTun {
    closed spec fn wf(&self) -> bool {
        self.name@.len() > 0 && self.fd >= 0
    }

    closed spec fn name_spec(&self) -> Seq<char> {
        self.name@
    }

    closed spec fn raw_fd_spec(&self) -> i32 {
        self.fd
    }

    proof fn lemma_wf(&self) {
    }

    fn interface_name(&self) -> (r: &str) {
        self.name.as_str()
    }

    fn raw_fd(&self) -> (r: i32) {
        self.fd
    }

    fn release(self) {
    }
}

/// The no-op provider used when tunnel creation is unsupported or
/// intentionally disabled (non-tunnel build variants, or platforms with no
/// implementation yet).
///
/// Creating a tunnel through it always fails, with
/// [`TunError::UnsupportedPlatform`] and with no OS side effects, for every
/// configuration: callers rely on that failure to detect that no real
/// tunnelling capability is present.
pub struct StubTunProvider;

impl StubTunProvider {
    /// Create the stub provider.  It holds no OS resources.
    pub fn new() -> (r: StubTunProvider)
        ensures
            r.wf(),
    {
        StubTunProvider
    }
}

impl TunProvider for StubTunProvider {
    type Device = StubTun;

    open spec fn wf(&self) -> bool {
        true
    }

    open spec fn create_spec(&self, config: TunConfig, r: Result<StubTun, TunError>) -> bool {
        r == Result::<StubTun, TunError>::Err(TunError::UnsupportedPlatform)
    }

    fn create_tun(&self, _config: TunConfig) -> (r: Result<StubTun, TunError>) {
        Err(TunError::UnsupportedPlatform)
    }
}

/// The stub provider's law: every outcome its factory contract permits is
/// the unsupported-platform error — for every configuration, on every call.
pub proof fn lemma_stub_always_unsupported(
    p: StubTunProvider,
    config: TunConfig,
    r: Result<StubTun, TunError>,
)
    requires
        p.create_spec(config, r),
    ensures
        r == Result::<StubTun, TunError>::Err(TunError::UnsupportedPlatform),
{
}

} // verus!
