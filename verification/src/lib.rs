//! A privileged launch trampoline: turns a freshly forked, still-privileged
//! process into an isolated sandbox and then replaces itself with the target
//! program image.
//!
//! The sandbox-construction sequence is fixed: build the filesystem jail
//! (bind mounts and root switch), drop all capabilities, optionally hand off
//! a proxied network descriptor, load the default-deny syscall policy, and
//! optionally request a mandatory-access-control profile transition for the
//! next exec.  Every fallible step is terminal: a partially applied sandbox
//! is never executed into.

use vstd::prelude::*;

pub mod guest;
pub mod jail;
pub mod mac;
pub mod netproxy;
pub mod numstr;
pub mod orchestrator;
pub mod privilege;
pub mod seccomp;

verus! {

/// The error kinds of the sandbox-construction sequence, each tagging the
/// phase that failed.  Every error is terminal: there is no local recovery
/// or retry, because a partially applied sandbox is a security defect.
#[derive(Debug, Clone, Copy, PartialEq, Eq, Structural)]
pub enum SandboxError {
    /// Directory, mount, root-switch or unmount failure while jailing.
    FilesystemSetup,
    /// Capability read or clear failure.
    Privilege,
    /// Proxy-socket connect or write failure.
    ProxyHandshake,
    /// Malformed or unloadable syscall filter.
    Policy,
    /// Profile-directive write failure while the MAC subsystem is enabled.
    MacSwitch,
    /// Final exec failure (target missing or not executable).
    ImageReplacement,
}

impl SandboxError {
    /// A short phase tag for diagnostics on standard error.
    pub fn phase(&self) -> (r: String)
        ensures
            *self is FilesystemSetup ==> r@ == "jail"@,
            *self is Privilege ==> r@ == "setcap"@,
            *self is ProxyHandshake ==> r@ == "netproxy"@,
            *self is Policy ==> r@ == "seccomp"@,
            *self is MacSwitch ==> r@ == "apparmor"@,
            *self is ImageReplacement ==> r@ == "exec"@,
    {
        match self {
            SandboxError::FilesystemSetup => String::from_str("jail"),
            SandboxError::Privilege => String::from_str("setcap"),
            SandboxError::ProxyHandshake => String::from_str("netproxy"),
            SandboxError::Policy => String::from_str("seccomp"),
            SandboxError::MacSwitch => String::from_str("apparmor"),
            SandboxError::ImageReplacement => String::from_str("exec"),
        }
    }
}

} // verus!
