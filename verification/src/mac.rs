//! The mandatory-access-control switch: when the host's MAC subsystem is
//! enabled, a directive is written to the process's own control interface so
//! that the named profile confines the image the process execs into next.
//! When the subsystem is disabled this stage is a no-op by construction: the
//! write is skipped, so it cannot fail.
//!
//! Reading the status interface and writing the directive are plain file
//! I/O at the edge and live with the caller; this module fixes what is
//! decided and what is written.

use vstd::prelude::*;
use vstd::string::*;

verus! {

/// Whether the status interface's content says the MAC subsystem is enabled:
/// the well-known status file starts with 'Y'.
pub open spec fn spec_apparmor_enabled(status: Seq<char>) -> bool {
    status.len() > 0 && status[0] == 'Y'
}

/// Decide from the status interface's content whether the MAC subsystem is
/// enabled.  An unreadable interface reads as an empty status, which decides
/// "disabled".
pub fn apparmor_enabled_from_status(status: &str) -> (r: bool)
    ensures
        r == spec_apparmor_enabled(status@),
{
    if status.unicode_len() == 0 {
        false
    } else {
        status.get_char(0) == 'Y'
    }
}

/// The directive written to the control interface: apply the named profile
/// on the next exec.
pub open spec fn spec_apparmor_directive(profile: Seq<char>) -> Seq<char> {
    "exec "@ + profile
}

/// Build the "apply profile on next exec" directive for a profile name.
pub fn apparmor_directive(profile: &str) -> (r: String)
    ensures
        r@ == spec_apparmor_directive(profile@),
{
    let mut s = String::from_str("exec ");
    s.append(profile);
    s
}

/// The well-known status interface that says whether the MAC subsystem is
/// enabled on this host.
pub fn apparmor_status_path() -> (r: String)
    ensures
        r@ == "/sys/module/apparmor/parameters/enabled"@,
{
    String::from_str("/sys/module/apparmor/parameters/enabled")
}

/// The process's own MAC control interface, where the exec directive is
/// written.
pub fn apparmor_exec_path() -> (r: String)
    ensures
        r@ == "/proc/self/attr/apparmor/exec"@,
{
    String::from_str("/proc/self/attr/apparmor/exec")
}

/// The profile every sandboxed user process is confined under.
pub fn uproc_profile_name() -> (r: String)
    ensures
        r@ == "sigmaos-uproc"@,
{
    String::from_str("sigmaos-uproc")
}

} // verus!
