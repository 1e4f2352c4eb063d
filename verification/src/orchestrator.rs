//! The fixed-order driver of the sandbox-construction sequence: assemble the
//! request from the invocation surface, build the jail, drop capabilities,
//! perform the proxy handshake iff proxy mode is enabled, and load the
//! syscall policy parameterized by that mode.  The MAC transition and the
//! final image replacement follow at the caller, which owns the file I/O and
//! the exec itself.
//!
//! The sequence is all-or-nothing: the target program runs fully sandboxed,
//! or not at all.  The stage model below states that, and the driver follows
//! it: a failed stage aborts the launch, and the image-replacement stage is
//! reached only when every stage before it succeeded.

use vstd::prelude::*;
use vstd::string::*;
use vstd::utf8::encode_utf8;

use crate::SandboxError;
use crate::jail;
use crate::netproxy;
use crate::numstr;
use crate::privilege;
use crate::seccomp;

verus! {

/// One workload-spawn request, constructed once from invocation arguments
/// and environment; immutable thereafter.
pub struct SandboxRequest {
    /// The process identifier, used as the jail directory key.
    pub pid: String,
    /// The target program path.
    pub program: String,
    /// The target program's argv tail.
    pub args: Vec<String>,
    /// The principal identity asserted to the proxy daemon.
    pub principal: String,
    /// Whether the network-proxy handshake runs and the raw networking
    /// syscalls are withheld.
    pub proxy_enabled: bool,
    /// Whether the writable performance-capture scratch directory is
    /// mounted.
    pub perf_enabled: bool,
    /// The prior exec timestamp in microseconds since the epoch, for latency
    /// chaining; zero when absent or malformed.
    pub prior_exec_us: u64,
}

/// The principal identity assumed when the environment names none.
pub fn default_principal() -> (r: String)
    ensures
        r@ == "NO_PRINCIPAL_IN_ENV"@,
{
    String::from_str("NO_PRINCIPAL_IN_ENV")
}

/// Assemble a request from the invocation surface: the positional process
/// identifier, program path and proxy-mode argument, the pass-through argv,
/// and the environment's principal identity, performance-capture marker and
/// prior exec timestamp.  Proxy mode is enabled unless the argument is
/// exactly "false"; a missing principal gets a fixed placeholder; a missing
/// or malformed timestamp reads as zero.
pub fn build_request(
    pid: String,
    program: String,
    netproxy_arg: &String,
    args: Vec<String>,
    principal_env: Option<String>,
    perf_marker_present: bool,
    prior_exec_env: Option<String>,
) -> (r: SandboxRequest)
    ensures
        r.pid == pid,
        r.program == program,
        r.args == args,
        r.proxy_enabled == (netproxy_arg@ != "false"@),
        (match principal_env {
            Some(p) => r.principal == p,
            None => r.principal@ == "NO_PRINCIPAL_IN_ENV"@,
        }),
        r.perf_enabled == perf_marker_present,
        (match prior_exec_env {
            Some(s) => r.prior_exec_us as nat == numstr::spec_parse_u64_or_zero(encode_utf8(s@)),
            None => r.prior_exec_us == 0,
        }),
{
    let proxy_enabled = !netproxy_arg.eq(&String::from_str("false"));
    let principal = match principal_env {
        Some(p) => p,
        None => default_principal(),
    };
    let prior_exec_us = match prior_exec_env {
        Some(s) => numstr::parse_u64_dec(s.as_str()),
        None => 0,
    };
    SandboxRequest {
        pid,
        program,
        args,
        principal,
        proxy_enabled,
        perf_enabled: perf_marker_present,
        prior_exec_us,
    }
}

/// One environment entry handed to the child.
pub struct EnvPair {
    pub key: String,
    pub value: String,
}

impl View for EnvPair {
    type V = (Seq<char>, Seq<char>);

    open spec fn view(&self) -> (Seq<char>, Seq<char>) {
        (self.key@, self.value@)
    }
}

/// The views of an environment list.
pub open spec fn env_view(e: Seq<EnvPair>) -> Seq<(Seq<char>, Seq<char>)> {
    Seq::new(e.len(), |i: int| e[i]@)
}

/// The final argv and environment for the image replacement: the target
/// program and its argv from the request, a refreshed exec timestamp, and —
/// when proxy mode is enabled — the numeric value of the inherited proxy
/// descriptor.
pub struct ExecContext {
    pub program: String,
    pub argv: Vec<String>,
    pub env: Vec<EnvPair>,
}

/// The environment entries owed to the child for a fresh timestamp and an
/// optional proxy descriptor.
pub open spec fn spec_exec_env(now_us: u64, proxy_fd: Option<i32>) -> Seq<(Seq<char>, Seq<char>)> {
    let base = seq![("SIGMA_EXEC_TIME"@, numstr::dec_rep(now_us as nat))];
    match proxy_fd {
        Some(fd) => base.push(("SIGMA_NETPROXY_FD"@, numstr::dec_rep(fd as nat))),
        None => base,
    }
}

/// Derive the exec context from the request, a fresh timestamp, and the
/// proxy descriptor if one was handed off.
pub fn build_exec_context(req: &SandboxRequest, now_us: u64, proxy_fd: Option<i32>) -> (r:
    ExecContext)
    requires
        proxy_fd is Some ==> proxy_fd->0 >= 0,
    ensures
        r.program == req.program,
        r.argv@ == req.args@,
        env_view(r.env@) == spec_exec_env(now_us, proxy_fd),
{
    let mut env: Vec<EnvPair> = Vec::new();
    env.push(
        EnvPair { key: String::from_str("SIGMA_EXEC_TIME"), value: numstr::u64_to_dec(now_us) },
    );
    match proxy_fd {
        Some(fd) => {
            env.push(
                EnvPair {
                    key: String::from_str("SIGMA_NETPROXY_FD"),
                    value: numstr::u64_to_dec(fd as u64),
                },
            );
        },
        None => {},
    }
    let r = ExecContext { program: req.program.clone(), argv: req.args.clone(), env };
    proof {
        assert forall|i: int| 0 <= i < req.args@.len() implies r.argv@[i] == req.args@[i] by {
            assert(vstd::pervasive::cloned::<String>(req.args[i], r.argv[i]));
        }
        assert(r.argv@ =~= req.args@);
        assert(env_view(r.env@) =~= spec_exec_env(now_us, proxy_fd));
    }
    r
}

/// Where the sequence stands: each stage in its fixed order, plus the two
/// terminal outcomes.
#[derive(Debug, Clone, Copy, PartialEq, Eq, Structural)]
pub enum Stage {
    /// Nothing has run yet.
    Start,
    /// The jail is built and switched into.
    Jailed,
    /// All ambient privilege is dropped.
    CapsDropped,
    /// The proxy descriptor is ready (or proxy mode is off and the stage is
    /// a no-op).
    ProxyReady,
    /// The syscall policy is loaded.
    PolicyLoaded,
    /// The MAC transition is requested (or the subsystem is disabled).
    MacApplied,
    /// The process image is being replaced: setup is complete.
    Exec,
    /// A stage failed; the launch is over and the target never starts.
    Aborted,
}

/// The next stage after one stage's outcome: success advances along the
/// fixed order, failure is terminal, and the terminal stages absorb.
pub open spec fn next_stage(s: Stage, ok: bool) -> Stage {
    match s {
        Stage::Exec => Stage::Exec,
        Stage::Aborted => Stage::Aborted,
        _ => {
            if !ok {
                Stage::Aborted
            } else {
                match s {
                    Stage::Start => Stage::Jailed,
                    Stage::Jailed => Stage::CapsDropped,
                    Stage::CapsDropped => Stage::ProxyReady,
                    Stage::ProxyReady => Stage::PolicyLoaded,
                    Stage::PolicyLoaded => Stage::MacApplied,
                    _ => Stage::Exec,
                }
            }
        },
    }
}

/// The stage reached after this many successes from the start.
pub open spec fn stage_after(n: int) -> Stage {
    if n <= 0 {
        Stage::Start
    } else if n == 1 {
        Stage::Jailed
    } else if n == 2 {
        Stage::CapsDropped
    } else if n == 3 {
        Stage::ProxyReady
    } else if n == 4 {
        Stage::PolicyLoaded
    } else if n == 5 {
        Stage::MacApplied
    } else {
        Stage::Exec
    }
}

/// The stage reached after a run of stage outcomes, oldest first.
pub open spec fn run_stages(outcomes: Seq<bool>) -> Stage
    decreases outcomes.len(),
{
    if outcomes.len() == 0 {
        Stage::Start
    } else {
        next_stage(run_stages(outcomes.drop_last()), outcomes.last())
    }
}

/// The sequence is all-or-nothing.  Over the six stages of one launch: when
/// every outcome is a success the run stands exactly as far as the outcomes
/// reach — the image replacement only after all six; and any failed outcome
/// aborts the run, so the target program never starts.
pub proof fn lemma_all_or_nothing(outcomes: Seq<bool>)
    requires
        outcomes.len() <= 6,
    ensures
        (forall|i: int| 0 <= i < outcomes.len() ==> outcomes[i]) ==> run_stages(outcomes)
            == stage_after(outcomes.len() as int),
        (exists|i: int| 0 <= i < outcomes.len() && !outcomes[i]) ==> run_stages(outcomes)
            is Aborted,
    decreases outcomes.len(),
{
    if outcomes.len() > 0 {
        lemma_all_or_nothing(outcomes.drop_last());
        if exists|i: int| 0 <= i < outcomes.len() && !outcomes[i] {
            let i = choose|i: int| 0 <= i < outcomes.len() && !outcomes[i];
            if i < outcomes.len() - 1 {
                assert(outcomes.drop_last()[i] == outcomes[i]);
                assert(run_stages(outcomes.drop_last()) is Aborted);
            } else {
                assert(!outcomes.last());
                assert(forall|j: int|
                    0 <= j < outcomes.len() - 1 ==> #[trigger] outcomes.drop_last()[j]
                        == outcomes[j]);
            }
        }
    }
}

/// Once a stage has failed, no later outcome revives the launch: the run
/// stays aborted, and in particular never reaches the image replacement.
pub proof fn lemma_abort_is_terminal(outcomes: Seq<bool>, more: Seq<bool>)
    requires
        run_stages(outcomes) is Aborted,
    ensures
        run_stages(outcomes + more) is Aborted,
    decreases more.len(),
{
    if more.len() == 0 {
        assert(outcomes + more =~= outcomes);
    } else {
        lemma_abort_is_terminal(outcomes, more.drop_last());
        assert((outcomes + more).drop_last() =~= outcomes + more.drop_last());
    }
}

/// A failed proxy handshake — the control socket missing, the connect or the
/// write failing — aborts the launch at its third stage: the policy is never
/// loaded and the target program is never started.
pub proof fn lemma_handshake_failure_aborts(more: Seq<bool>)
    ensures
        run_stages(seq![true, true, false]) is Aborted,
        run_stages(seq![true, true, false] + more) is Aborted,
{
    let prefix = seq![true, true, false];
    assert(!prefix[2]);
    lemma_all_or_nothing(prefix);
    lemma_abort_is_terminal(prefix, more);
}

/// What the completed leading stages hand onward: the applied mount set, the
/// pre-drop capability snapshot, the proxy descriptor if one was handed off,
/// and the policy owed to the kernel.
pub struct SandboxSetup {
    pub mounts: Vec<jail::MountSpec>,
    pub caps_before: privilege::CapSnapshot,
    pub proxy_fd: Option<i32>,
    pub policy: seccomp::SeccompPolicy,
}

/// Run the leading stages of the sequence in their fixed order: build the
/// jail and switch into it, drop all capabilities, perform the proxy
/// handshake iff proxy mode is enabled, and build the syscall policy
/// parameterized by that mode.  Each stage's failure is terminal and is
/// reported with its phase; nothing after a failed stage runs.  The caller
/// then loads the returned policy, requests the MAC transition, and replaces
/// the image, in that order.
///
/// On success: the applied mounts are exactly the plan for the request's
/// performance-capture flag, the policy to load is exactly the policy for
/// the request's proxy mode, and a nonnegative proxy descriptor is present
/// iff proxy mode is enabled.
pub fn run_sandbox(req: &SandboxRequest) -> (r: Result<SandboxSetup, SandboxError>)
    requires
        req.proxy_enabled ==> encode_utf8(req.principal@).len() + 4 <= i32::MAX,
    ensures
        r is Ok ==> jail::plan_view(r->Ok_0.mounts@) == jail::spec_mount_plan(req.perf_enabled),
        r is Ok ==> r->Ok_0.policy@ == seccomp::spec_policy(req.proxy_enabled),
        r is Ok ==> (r->Ok_0.proxy_fd is Some <==> req.proxy_enabled),
        r is Ok ==> (r->Ok_0.proxy_fd is Some ==> r->Ok_0.proxy_fd->0 >= 0),
        r is Err ==> (r->Err_0 == SandboxError::FilesystemSetup || r->Err_0
            == SandboxError::Privilege || r->Err_0 == SandboxError::ProxyHandshake),
{
    let mounts = match jail::jail_proc(req.pid.as_str(), req.perf_enabled) {
        Ok(m) => m,
        Err(e) => {
            return Err(e);
        },
    };
    let caps_before = match privilege::setcap_proc() {
        Ok(s) => s,
        Err(e) => {
            return Err(e);
        },
    };
    let proxy_fd = if req.proxy_enabled {
        match netproxy::netproxy_handshake(req.principal.as_str()) {
            Ok(fd) => Some(fd),
            Err(e) => {
                return Err(e);
            },
        }
    } else {
        None
    };
    let policy = seccomp::build_policy(req.proxy_enabled);
    Ok(SandboxSetup { mounts, caps_before, proxy_fd, policy })
}

} // verus!
