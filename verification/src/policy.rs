//! What a sandbox is asked to enforce.
use vstd::prelude::*;

verus! {

/// The filesystem axis of a policy.
#[derive(Debug, Clone, Copy, PartialEq, Eq, Structural)]
pub struct FsPolicy {
    /// Confine writes to the allowed roots.
    pub write_enforce: bool,
    /// Deny reads of the protected paths.
    pub read_enforce: bool,
}

/// The network axis of a policy.
#[derive(Debug, Clone, Copy, PartialEq, Eq, Structural)]
pub struct NetPolicy {
    /// Deny outbound connections that are not allowed.
    pub enforce: bool,
}

/// The axes that an operating system backend is asked to enforce on a child
/// process.
#[derive(Debug, Clone, Copy, PartialEq, Eq, Structural)]
pub struct SandboxPolicy {
    pub fs: FsPolicy,
    pub net: NetPolicy,
}

impl SandboxPolicy {
    /// Whether the filesystem is to be confined, for writes or for reads.
    pub open spec fn confines_fs(self) -> bool {
        self.fs.write_enforce || self.fs.read_enforce
    }

    /// Whether the network is to be confined.
    pub open spec fn confines_net(self) -> bool {
        self.net.enforce
    }
}

} // verus!
