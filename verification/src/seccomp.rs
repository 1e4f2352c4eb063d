//! The default-deny syscall policy: a fixed unconditional allow-list, two
//! argument-conditioned rules, and a deny action that returns a fixed errno
//! instead of killing the process, so blocked syscalls fail softly and user
//! code can observe the denial.
//!
//! The policy is built fresh per invocation and loaded exactly once; after
//! loading it cannot be loosened for the remaining life of the process.
//! This module fixes what the policy is and what it decides; loading it is
//! a process-wide, irrevocable kernel effect and sits with the embedding
//! binary, beside the other one-shot process mutations.

use vstd::prelude::*;
use vstd::string::*;

verus! {

broadcast use vstd::string::group_string_axioms;

/// The errno returned for a denied syscall.
pub const DENY_ERRNO: u32 = 1;

/// The raw-VM-socket domain value: `socket` with this domain is a known
/// sandbox-escape vector and is always denied.
pub const VSOCK_DOMAIN: u64 = 40;

/// The flags pattern of in-process thread creation: `clone` is allowed only
/// when its flags argument, masked against this pattern, equals it, which
/// permits thread and coroutine creation and denies new namespaces.
pub const CLONE_THREAD_PATTERN: u64 = 0x7E020000;

/// How a conditional allow rule compares a syscall argument.
#[derive(Debug, Clone, Copy, PartialEq, Eq, Structural)]
pub enum ArgOp {
    /// Allow when the argument differs from the comparison value.
    NotEqual,
    /// Allow when the argument, masked, equals the comparison value.
    MaskedEqual { mask: u64 },
}

/// A conditional allow rule: syscall name, argument index, and comparison.
#[derive(Debug, Clone)]
pub struct CondRule {
    pub name: String,
    pub arg_index: usize,
    pub op: ArgOp,
    pub value: u64,
}

/// The mathematical shadow of a conditional rule.
pub struct CondRuleView {
    pub name: Seq<char>,
    pub arg_index: usize,
    pub op: ArgOp,
    pub value: u64,
}

impl View for CondRule {
    type V = CondRuleView;

    open spec fn view(&self) -> CondRuleView {
        CondRuleView { name: self.name@, arg_index: self.arg_index, op: self.op, value: self.value }
    }
}

/// The syscall policy: a default deny errno, the unconditional allow-list,
/// and the conditional allow rules.
#[derive(Debug, Clone)]
pub struct SeccompPolicy {
    pub deny_errno: u32,
    pub allowed: Vec<String>,
    pub cond_allowed: Vec<CondRule>,
}

/// The mathematical shadow of a policy.
pub struct PolicyView {
    pub deny_errno: u32,
    pub allowed: Seq<Seq<char>>,
    pub cond_allowed: Seq<CondRuleView>,
}

impl View for SeccompPolicy {
    type V = PolicyView;

    open spec fn view(&self) -> PolicyView {
        PolicyView {
            deny_errno: self.deny_errno,
            allowed: self.allowed.deep_view(),
            cond_allowed: Seq::new(self.cond_allowed@.len(), |i: int| self.cond_allowed@[i]@),
        }
    }
}

/// What the kernel decides for one syscall under a loaded policy: let it
/// through, or fail it with the policy's errno.  The deny action never
/// terminates the process.
#[derive(Debug, Clone, Copy, PartialEq, Eq, Structural)]
pub enum SyscallDecision {
    Allow,
    DenyErrno(u32),
}

/// Whether one argument comparison holds.
pub open spec fn cond_holds(op: ArgOp, value: u64, arg: u64) -> bool {
    match op {
        ArgOp::NotEqual => arg != value,
        ArgOp::MaskedEqual { mask } => (arg & mask) == value,
    }
}

/// Whether a syscall name is on the unconditional allow-list.
pub open spec fn name_allowed(p: PolicyView, name: Seq<char>) -> bool {
    exists|i: int| 0 <= i < p.allowed.len() && p.allowed[i] == name
}

/// Whether a conditional rule fires for a call: the rule is for this name,
/// the inspected argument exists, and its comparison holds.
pub open spec fn cond_rule_fires(r: CondRuleView, name: Seq<char>, args: Seq<u64>) -> bool {
    r.name == name && r.arg_index < args.len() && cond_holds(r.op, r.value, args[r.arg_index as int])
}

/// The policy's decision for one syscall invocation: allowed names pass, a
/// firing conditional rule passes, everything else fails with the deny errno.
pub open spec fn decision(p: PolicyView, name: Seq<char>, args: Seq<u64>) -> SyscallDecision {
    if name_allowed(p, name) {
        SyscallDecision::Allow
    } else if exists|i: int| 0 <= i < p.cond_allowed.len() && cond_rule_fires(
        p.cond_allowed[i],
        name,
        args,
    ) {
        SyscallDecision::Allow
    } else {
        SyscallDecision::DenyErrno(p.deny_errno)
    }
}

/// Every syscall on the unconditional allow-list is admitted, whatever its
/// arguments: it can only fail with its own natural error, never with the
/// filter's deny errno.
pub proof fn lemma_allowlisted_never_denied(p: PolicyView, name: Seq<char>, args: Seq<u64>)
    requires
        name_allowed(p, name),
    ensures
        decision(p, name, args) == SyscallDecision::Allow,
{
}

/// Every syscall outside all allow-lists fails with exactly the configured
/// deny errno; the process is not terminated.
pub proof fn lemma_unlisted_denied(p: PolicyView, name: Seq<char>, args: Seq<u64>)
    requires
        !name_allowed(p, name),
        forall|i: int| 0 <= i < p.cond_allowed.len() ==> p.cond_allowed[i].name != name,
    ensures
        decision(p, name, args) == SyscallDecision::DenyErrno(p.deny_errno),
{
}

/// A syscall under a conditional rule is admitted exactly when some rule for
/// it fires on the inspected argument.
pub proof fn lemma_conditional_decision(p: PolicyView, name: Seq<char>, args: Seq<u64>)
    requires
        !name_allowed(p, name),
    ensures
        decision(p, name, args) == SyscallDecision::Allow <==> exists|i: int|
            0 <= i < p.cond_allowed.len() && cond_rule_fires(p.cond_allowed[i], name, args),
{
}

/// None of the argument-gated or proxy-gated networking syscalls is on the
/// fixed unconditional allow-list: their admission is decided only by the
/// conditional rules and the proxy mode.
proof fn lemma_gated_names_not_in_base()
    ensures
        !base_allowed_names().contains("socket"@),
        !base_allowed_names().contains("clone"@),
        !base_allowed_names().contains("bind"@),
        !base_allowed_names().contains("listen"@),
        !base_allowed_names().contains("connect"@),
{
    assert forall|i: int| 0 <= i < base_allowed_names().len() implies #[trigger] base_allowed_names()[i]
        != "socket"@ && base_allowed_names()[i] != "clone"@ && base_allowed_names()[i] != "bind"@
        && base_allowed_names()[i] != "listen"@ && base_allowed_names()[i] != "connect"@ by {
        lemma_base_entry_not_gated(i);
    }
}

/// Each entry of the fixed allow-list, by index: none is one of the
/// argument-gated or proxy-gated networking syscalls.
#[verifier::rlimit(100)]
proof fn lemma_base_entry_not_gated(i: int)
    requires
        0 <= i < base_allowed_names().len(),
    ensures
        base_allowed_names()[i] != "socket"@,
        base_allowed_names()[i] != "clone"@,
        base_allowed_names()[i] != "bind"@,
        base_allowed_names()[i] != "listen"@,
        base_allowed_names()[i] != "connect"@,
{
    reveal_strlit("socket");
    reveal_strlit("clone");
    reveal_strlit("bind");
    reveal_strlit("listen");
    reveal_strlit("connect");
    let names = base_allowed_names();
    if i == 0 {
        reveal_strlit("ioctl"); assert(names[i] == "ioctl"@);
        assert("ioctl"@[0] != "clone"@[0] && "ioctl"@.len() != "socket"@.len() && "ioctl"@.len() != "bind"@.len() && "ioctl"@.len() != "listen"@.len() && "ioctl"@.len() != "connect"@.len());
    } else if i == 1 {
        reveal_strlit("poll"); assert(names[i] == "poll"@);
        assert("poll"@[0] != "bind"@[0] && "poll"@.len() != "socket"@.len() && "poll"@.len() != "clone"@.len() && "poll"@.len() != "listen"@.len() && "poll"@.len() != "connect"@.len());
    } else if i == 2 {
        reveal_strlit("lstat"); assert(names[i] == "lstat"@);
        assert("lstat"@[0] != "clone"@[0] && "lstat"@.len() != "socket"@.len() && "lstat"@.len() != "bind"@.len() && "lstat"@.len() != "listen"@.len() && "lstat"@.len() != "connect"@.len());
    } else if i == 3 {
        reveal_strlit("clock_gettime"); assert(names[i] == "clock_gettime"@);
        assert("clock_gettime"@.len() != "socket"@.len() && "clock_gettime"@.len() != "clone"@.len() && "clock_gettime"@.len() != "bind"@.len() && "clock_gettime"@.len() != "listen"@.len() && "clock_gettime"@.len() != "connect"@.len());
    } else if i == 4 {
        reveal_strlit("membarrier"); assert(names[i] == "membarrier"@);
        assert("membarrier"@.len() != "socket"@.len() && "membarrier"@.len() != "clone"@.len() && "membarrier"@.len() != "bind"@.len() && "membarrier"@.len() != "listen"@.len() && "membarrier"@.len() != "connect"@.len());
    } else if i == 5 {
        reveal_strlit("accept4"); assert(names[i] == "accept4"@);
        assert("accept4"@[0] != "connect"@[0] && "accept4"@.len() != "socket"@.len() && "accept4"@.len() != "clone"@.len() && "accept4"@.len() != "bind"@.len() && "accept4"@.len() != "listen"@.len());
    } else if i == 6 {
        reveal_strlit("access"); assert(names[i] == "access"@);
        assert("access"@[0] != "socket"@[0] && "access"@[0] != "listen"@[0] && "access"@.len() != "clone"@.len() && "access"@.len() != "bind"@.len() && "access"@.len() != "connect"@.len());
    } else if i == 7 {
        reveal_strlit("arch_prctl"); assert(names[i] == "arch_prctl"@);
        assert("arch_prctl"@.len() != "socket"@.len() && "arch_prctl"@.len() != "clone"@.len() && "arch_prctl"@.len() != "bind"@.len() && "arch_prctl"@.len() != "listen"@.len() && "arch_prctl"@.len() != "connect"@.len());
    } else if i == 8 {
        reveal_strlit("brk"); assert(names[i] == "brk"@);
        assert("brk"@.len() != "socket"@.len() && "brk"@.len() != "clone"@.len() && "brk"@.len() != "bind"@.len() && "brk"@.len() != "listen"@.len() && "brk"@.len() != "connect"@.len());
    } else if i == 9 {
        reveal_strlit("close"); assert(names[i] == "close"@);
        assert("close"@[3] != "clone"@[3] && "close"@.len() != "socket"@.len() && "close"@.len() != "bind"@.len() && "close"@.len() != "listen"@.len() && "close"@.len() != "connect"@.len());
    } else if i == 10 {
        reveal_strlit("epoll_create1"); assert(names[i] == "epoll_create1"@);
        assert("epoll_create1"@.len() != "socket"@.len() && "epoll_create1"@.len() != "clone"@.len() && "epoll_create1"@.len() != "bind"@.len() && "epoll_create1"@.len() != "listen"@.len() && "epoll_create1"@.len() != "connect"@.len());
    } else if i == 11 {
        reveal_strlit("epoll_ctl"); assert(names[i] == "epoll_ctl"@);
        assert("epoll_ctl"@.len() != "socket"@.len() && "epoll_ctl"@.len() != "clone"@.len() && "epoll_ctl"@.len() != "bind"@.len() && "epoll_ctl"@.len() != "listen"@.len() && "epoll_ctl"@.len() != "connect"@.len());
    } else if i == 12 {
        reveal_strlit("epoll_ctl_old"); assert(names[i] == "epoll_ctl_old"@);
        assert("epoll_ctl_old"@.len() != "socket"@.len() && "epoll_ctl_old"@.len() != "clone"@.len() && "epoll_ctl_old"@.len() != "bind"@.len() && "epoll_ctl_old"@.len() != "listen"@.len() && "epoll_ctl_old"@.len() != "connect"@.len());
    } else if i == 13 {
        reveal_strlit("epoll_pwait"); assert(names[i] == "epoll_pwait"@);
        assert("epoll_pwait"@.len() != "socket"@.len() && "epoll_pwait"@.len() != "clone"@.len() && "epoll_pwait"@.len() != "bind"@.len() && "epoll_pwait"@.len() != "listen"@.len() && "epoll_pwait"@.len() != "connect"@.len());
    } else if i == 14 {
        reveal_strlit("epoll_pwait2"); assert(names[i] == "epoll_pwait2"@);
        assert("epoll_pwait2"@.len() != "socket"@.len() && "epoll_pwait2"@.len() != "clone"@.len() && "epoll_pwait2"@.len() != "bind"@.len() && "epoll_pwait2"@.len() != "listen"@.len() && "epoll_pwait2"@.len() != "connect"@.len());
    } else if i == 15 {
        reveal_strlit("execve"); assert(names[i] == "execve"@);
        assert("execve"@[0] != "socket"@[0] && "execve"@[0] != "listen"@[0] && "execve"@.len() != "clone"@.len() && "execve"@.len() != "bind"@.len() && "execve"@.len() != "connect"@.len());
    } else if i == 16 {
        reveal_strlit("exit"); assert(names[i] == "exit"@);
        assert("exit"@[0] != "bind"@[0] && "exit"@.len() != "socket"@.len() && "exit"@.len() != "clone"@.len() && "exit"@.len() != "listen"@.len() && "exit"@.len() != "connect"@.len());
    } else if i == 17 {
        reveal_strlit("exit_group"); assert(names[i] == "exit_group"@);
        assert("exit_group"@.len() != "socket"@.len() && "exit_group"@.len() != "clone"@.len() && "exit_group"@.len() != "bind"@.len() && "exit_group"@.len() != "listen"@.len() && "exit_group"@.len() != "connect"@.len());
    } else if i == 18 {
        reveal_strlit("fcntl"); assert(names[i] == "fcntl"@);
        assert("fcntl"@[0] != "clone"@[0] && "fcntl"@.len() != "socket"@.len() && "fcntl"@.len() != "bind"@.len() && "fcntl"@.len() != "listen"@.len() && "fcntl"@.len() != "connect"@.len());
    } else if i == 19 {
        reveal_strlit("fstat"); assert(names[i] == "fstat"@);
        assert("fstat"@[0] != "clone"@[0] && "fstat"@.len() != "socket"@.len() && "fstat"@.len() != "bind"@.len() && "fstat"@.len() != "listen"@.len() && "fstat"@.len() != "connect"@.len());
    } else if i == 20 {
        reveal_strlit("fsync"); assert(names[i] == "fsync"@);
        assert("fsync"@[0] != "clone"@[0] && "fsync"@.len() != "socket"@.len() && "fsync"@.len() != "bind"@.len() && "fsync"@.len() != "listen"@.len() && "fsync"@.len() != "connect"@.len());
    } else if i == 21 {
        reveal_strlit("futex"); assert(names[i] == "futex"@);
        assert("futex"@[0] != "clone"@[0] && "futex"@.len() != "socket"@.len() && "futex"@.len() != "bind"@.len() && "futex"@.len() != "listen"@.len() && "futex"@.len() != "connect"@.len());
    } else if i == 22 {
        reveal_strlit("getdents64"); assert(names[i] == "getdents64"@);
        assert("getdents64"@.len() != "socket"@.len() && "getdents64"@.len() != "clone"@.len() && "getdents64"@.len() != "bind"@.len() && "getdents64"@.len() != "listen"@.len() && "getdents64"@.len() != "connect"@.len());
    } else if i == 23 {
        reveal_strlit("getpeername"); assert(names[i] == "getpeername"@);
        assert("getpeername"@.len() != "socket"@.len() && "getpeername"@.len() != "clone"@.len() && "getpeername"@.len() != "bind"@.len() && "getpeername"@.len() != "listen"@.len() && "getpeername"@.len() != "connect"@.len());
    } else if i == 24 {
        reveal_strlit("getpid"); assert(names[i] == "getpid"@);
        assert("getpid"@[0] != "socket"@[0] && "getpid"@[0] != "listen"@[0] && "getpid"@.len() != "clone"@.len() && "getpid"@.len() != "bind"@.len() && "getpid"@.len() != "connect"@.len());
    } else if i == 25 {
        reveal_strlit("getrandom"); assert(names[i] == "getrandom"@);
        assert("getrandom"@.len() != "socket"@.len() && "getrandom"@.len() != "clone"@.len() && "getrandom"@.len() != "bind"@.len() && "getrandom"@.len() != "listen"@.len() && "getrandom"@.len() != "connect"@.len());
    } else if i == 26 {
        reveal_strlit("getrlimit"); assert(names[i] == "getrlimit"@);
        assert("getrlimit"@.len() != "socket"@.len() && "getrlimit"@.len() != "clone"@.len() && "getrlimit"@.len() != "bind"@.len() && "getrlimit"@.len() != "listen"@.len() && "getrlimit"@.len() != "connect"@.len());
    } else if i == 27 {
        reveal_strlit("getsockname"); assert(names[i] == "getsockname"@);
        assert("getsockname"@.len() != "socket"@.len() && "getsockname"@.len() != "clone"@.len() && "getsockname"@.len() != "bind"@.len() && "getsockname"@.len() != "listen"@.len() && "getsockname"@.len() != "connect"@.len());
    } else if i == 28 {
        reveal_strlit("getsockopt"); assert(names[i] == "getsockopt"@);
        assert("getsockopt"@.len() != "socket"@.len() && "getsockopt"@.len() != "clone"@.len() && "getsockopt"@.len() != "bind"@.len() && "getsockopt"@.len() != "listen"@.len() && "getsockopt"@.len() != "connect"@.len());
    } else if i == 29 {
        reveal_strlit("gettid"); assert(names[i] == "gettid"@);
        assert("gettid"@[0] != "socket"@[0] && "gettid"@[0] != "listen"@[0] && "gettid"@.len() != "clone"@.len() && "gettid"@.len() != "bind"@.len() && "gettid"@.len() != "connect"@.len());
    } else if i == 30 {
        reveal_strlit("lseek"); assert(names[i] == "lseek"@);
        assert("lseek"@[0] != "clone"@[0] && "lseek"@.len() != "socket"@.len() && "lseek"@.len() != "bind"@.len() && "lseek"@.len() != "listen"@.len() && "lseek"@.len() != "connect"@.len());
    } else if i == 31 {
        reveal_strlit("madvise"); assert(names[i] == "madvise"@);
        assert("madvise"@[0] != "connect"@[0] && "madvise"@.len() != "socket"@.len() && "madvise"@.len() != "clone"@.len() && "madvise"@.len() != "bind"@.len() && "madvise"@.len() != "listen"@.len());
    } else if i == 32 {
        reveal_strlit("mkdirat"); assert(names[i] == "mkdirat"@);
        assert("mkdirat"@[0] != "connect"@[0] && "mkdirat"@.len() != "socket"@.len() && "mkdirat"@.len() != "clone"@.len() && "mkdirat"@.len() != "bind"@.len() && "mkdirat"@.len() != "listen"@.len());
    } else if i == 33 {
        reveal_strlit("mmap"); assert(names[i] == "mmap"@);
        assert("mmap"@[0] != "bind"@[0] && "mmap"@.len() != "socket"@.len() && "mmap"@.len() != "clone"@.len() && "mmap"@.len() != "listen"@.len() && "mmap"@.len() != "connect"@.len());
    } else if i == 34 {
        reveal_strlit("mremap"); assert(names[i] == "mremap"@);
        assert("mremap"@[0] != "socket"@[0] && "mremap"@[0] != "listen"@[0] && "mremap"@.len() != "clone"@.len() && "mremap"@.len() != "bind"@.len() && "mremap"@.len() != "connect"@.len());
    } else if i == 35 {
        reveal_strlit("mprotect"); assert(names[i] == "mprotect"@);
        assert("mprotect"@.len() != "socket"@.len() && "mprotect"@.len() != "clone"@.len() && "mprotect"@.len() != "bind"@.len() && "mprotect"@.len() != "listen"@.len() && "mprotect"@.len() != "connect"@.len());
    } else if i == 36 {
        reveal_strlit("munmap"); assert(names[i] == "munmap"@);
        assert("munmap"@[0] != "socket"@[0] && "munmap"@[0] != "listen"@[0] && "munmap"@.len() != "clone"@.len() && "munmap"@.len() != "bind"@.len() && "munmap"@.len() != "connect"@.len());
    } else if i == 37 {
        reveal_strlit("nanosleep"); assert(names[i] == "nanosleep"@);
        assert("nanosleep"@.len() != "socket"@.len() && "nanosleep"@.len() != "clone"@.len() && "nanosleep"@.len() != "bind"@.len() && "nanosleep"@.len() != "listen"@.len() && "nanosleep"@.len() != "connect"@.len());
    } else if i == 38 {
        reveal_strlit("newfstatat"); assert(names[i] == "newfstatat"@);
        assert("newfstatat"@.len() != "socket"@.len() && "newfstatat"@.len() != "clone"@.len() && "newfstatat"@.len() != "bind"@.len() && "newfstatat"@.len() != "listen"@.len() && "newfstatat"@.len() != "connect"@.len());
    } else if i == 39 {
        reveal_strlit("openat"); assert(names[i] == "openat"@);
        assert("openat"@[0] != "socket"@[0] && "openat"@[0] != "listen"@[0] && "openat"@.len() != "clone"@.len() && "openat"@.len() != "bind"@.len() && "openat"@.len() != "connect"@.len());
    } else if i == 40 {
        reveal_strlit("open"); assert(names[i] == "open"@);
        assert("open"@[0] != "bind"@[0] && "open"@.len() != "socket"@.len() && "open"@.len() != "clone"@.len() && "open"@.len() != "listen"@.len() && "open"@.len() != "connect"@.len());
    } else if i == 41 {
        reveal_strlit("pipe2"); assert(names[i] == "pipe2"@);
        assert("pipe2"@[0] != "clone"@[0] && "pipe2"@.len() != "socket"@.len() && "pipe2"@.len() != "bind"@.len() && "pipe2"@.len() != "listen"@.len() && "pipe2"@.len() != "connect"@.len());
    } else if i == 42 {
        reveal_strlit("pread64"); assert(names[i] == "pread64"@);
        assert("pread64"@[0] != "connect"@[0] && "pread64"@.len() != "socket"@.len() && "pread64"@.len() != "clone"@.len() && "pread64"@.len() != "bind"@.len() && "pread64"@.len() != "listen"@.len());
    } else if i == 43 {
        reveal_strlit("prlimit64"); assert(names[i] == "prlimit64"@);
        assert("prlimit64"@.len() != "socket"@.len() && "prlimit64"@.len() != "clone"@.len() && "prlimit64"@.len() != "bind"@.len() && "prlimit64"@.len() != "listen"@.len() && "prlimit64"@.len() != "connect"@.len());
    } else if i == 44 {
        reveal_strlit("read"); assert(names[i] == "read"@);
        assert("read"@[0] != "bind"@[0] && "read"@.len() != "socket"@.len() && "read"@.len() != "clone"@.len() && "read"@.len() != "listen"@.len() && "read"@.len() != "connect"@.len());
    } else if i == 45 {
        reveal_strlit("readlinkat"); assert(names[i] == "readlinkat"@);
        assert("readlinkat"@.len() != "socket"@.len() && "readlinkat"@.len() != "clone"@.len() && "readlinkat"@.len() != "bind"@.len() && "readlinkat"@.len() != "listen"@.len() && "readlinkat"@.len() != "connect"@.len());
    } else if i == 46 {
        reveal_strlit("recvfrom"); assert(names[i] == "recvfrom"@);
        assert("recvfrom"@.len() != "socket"@.len() && "recvfrom"@.len() != "clone"@.len() && "recvfrom"@.len() != "bind"@.len() && "recvfrom"@.len() != "listen"@.len() && "recvfrom"@.len() != "connect"@.len());
    } else if i == 47 {
        reveal_strlit("recvmsg"); assert(names[i] == "recvmsg"@);
        assert("recvmsg"@[0] != "connect"@[0] && "recvmsg"@.len() != "socket"@.len() && "recvmsg"@.len() != "clone"@.len() && "recvmsg"@.len() != "bind"@.len() && "recvmsg"@.len() != "listen"@.len());
    } else if i == 48 {
        reveal_strlit("restart_syscall"); assert(names[i] == "restart_syscall"@);
        assert("restart_syscall"@.len() != "socket"@.len() && "restart_syscall"@.len() != "clone"@.len() && "restart_syscall"@.len() != "bind"@.len() && "restart_syscall"@.len() != "listen"@.len() && "restart_syscall"@.len() != "connect"@.len());
    } else if i == 49 {
        reveal_strlit("rt_sigaction"); assert(names[i] == "rt_sigaction"@);
        assert("rt_sigaction"@.len() != "socket"@.len() && "rt_sigaction"@.len() != "clone"@.len() && "rt_sigaction"@.len() != "bind"@.len() && "rt_sigaction"@.len() != "listen"@.len() && "rt_sigaction"@.len() != "connect"@.len());
    } else if i == 50 {
        reveal_strlit("rt_sigprocmask"); assert(names[i] == "rt_sigprocmask"@);
        assert("rt_sigprocmask"@.len() != "socket"@.len() && "rt_sigprocmask"@.len() != "clone"@.len() && "rt_sigprocmask"@.len() != "bind"@.len() && "rt_sigprocmask"@.len() != "listen"@.len() && "rt_sigprocmask"@.len() != "connect"@.len());
    } else if i == 51 {
        reveal_strlit("rt_sigreturn"); assert(names[i] == "rt_sigreturn"@);
        assert("rt_sigreturn"@.len() != "socket"@.len() && "rt_sigreturn"@.len() != "clone"@.len() && "rt_sigreturn"@.len() != "bind"@.len() && "rt_sigreturn"@.len() != "listen"@.len() && "rt_sigreturn"@.len() != "connect"@.len());
    } else if i == 52 {
        reveal_strlit("sched_getaffinity"); assert(names[i] == "sched_getaffinity"@);
        assert("sched_getaffinity"@.len() != "socket"@.len() && "sched_getaffinity"@.len() != "clone"@.len() && "sched_getaffinity"@.len() != "bind"@.len() && "sched_getaffinity"@.len() != "listen"@.len() && "sched_getaffinity"@.len() != "connect"@.len());
    } else if i == 53 {
        reveal_strlit("sched_yield"); assert(names[i] == "sched_yield"@);
        assert("sched_yield"@.len() != "socket"@.len() && "sched_yield"@.len() != "clone"@.len() && "sched_yield"@.len() != "bind"@.len() && "sched_yield"@.len() != "listen"@.len() && "sched_yield"@.len() != "connect"@.len());
    } else if i == 54 {
        reveal_strlit("sendto"); assert(names[i] == "sendto"@);
        assert("sendto"@[1] != "socket"@[1] && "sendto"@[0] != "listen"@[0] && "sendto"@.len() != "clone"@.len() && "sendto"@.len() != "bind"@.len() && "sendto"@.len() != "connect"@.len());
    } else if i == 55 {
        reveal_strlit("sendmsg"); assert(names[i] == "sendmsg"@);
        assert("sendmsg"@[0] != "connect"@[0] && "sendmsg"@.len() != "socket"@.len() && "sendmsg"@.len() != "clone"@.len() && "sendmsg"@.len() != "bind"@.len() && "sendmsg"@.len() != "listen"@.len());
    } else if i == 56 {
        reveal_strlit("setitimer"); assert(names[i] == "setitimer"@);
        assert("setitimer"@.len() != "socket"@.len() && "setitimer"@.len() != "clone"@.len() && "setitimer"@.len() != "bind"@.len() && "setitimer"@.len() != "listen"@.len() && "setitimer"@.len() != "connect"@.len());
    } else if i == 57 {
        reveal_strlit("setsockopt"); assert(names[i] == "setsockopt"@);
        assert("setsockopt"@.len() != "socket"@.len() && "setsockopt"@.len() != "clone"@.len() && "setsockopt"@.len() != "bind"@.len() && "setsockopt"@.len() != "listen"@.len() && "setsockopt"@.len() != "connect"@.len());
    } else if i == 58 {
        reveal_strlit("set_robust_list"); assert(names[i] == "set_robust_list"@);
        assert("set_robust_list"@.len() != "socket"@.len() && "set_robust_list"@.len() != "clone"@.len() && "set_robust_list"@.len() != "bind"@.len() && "set_robust_list"@.len() != "listen"@.len() && "set_robust_list"@.len() != "connect"@.len());
    } else if i == 59 {
        reveal_strlit("set_tid_address"); assert(names[i] == "set_tid_address"@);
        assert("set_tid_address"@.len() != "socket"@.len() && "set_tid_address"@.len() != "clone"@.len() && "set_tid_address"@.len() != "bind"@.len() && "set_tid_address"@.len() != "listen"@.len() && "set_tid_address"@.len() != "connect"@.len());
    } else if i == 60 {
        reveal_strlit("sigaltstack"); assert(names[i] == "sigaltstack"@);
        assert("sigaltstack"@.len() != "socket"@.len() && "sigaltstack"@.len() != "clone"@.len() && "sigaltstack"@.len() != "bind"@.len() && "sigaltstack"@.len() != "listen"@.len() && "sigaltstack"@.len() != "connect"@.len());
    } else if i == 61 {
        reveal_strlit("sync"); assert(names[i] == "sync"@);
        assert("sync"@[0] != "bind"@[0] && "sync"@.len() != "socket"@.len() && "sync"@.len() != "clone"@.len() && "sync"@.len() != "listen"@.len() && "sync"@.len() != "connect"@.len());
    } else if i == 62 {
        reveal_strlit("timer_create"); assert(names[i] == "timer_create"@);
        assert("timer_create"@.len() != "socket"@.len() && "timer_create"@.len() != "clone"@.len() && "timer_create"@.len() != "bind"@.len() && "timer_create"@.len() != "listen"@.len() && "timer_create"@.len() != "connect"@.len());
    } else if i == 63 {
        reveal_strlit("timer_delete"); assert(names[i] == "timer_delete"@);
        assert("timer_delete"@.len() != "socket"@.len() && "timer_delete"@.len() != "clone"@.len() && "timer_delete"@.len() != "bind"@.len() && "timer_delete"@.len() != "listen"@.len() && "timer_delete"@.len() != "connect"@.len());
    } else if i == 64 {
        reveal_strlit("timer_settime"); assert(names[i] == "timer_settime"@);
        assert("timer_settime"@.len() != "socket"@.len() && "timer_settime"@.len() != "clone"@.len() && "timer_settime"@.len() != "bind"@.len() && "timer_settime"@.len() != "listen"@.len() && "timer_settime"@.len() != "connect"@.len());
    } else if i == 65 {
        reveal_strlit("tgkill"); assert(names[i] == "tgkill"@);
        assert("tgkill"@[0] != "socket"@[0] && "tgkill"@[0] != "listen"@[0] && "tgkill"@.len() != "clone"@.len() && "tgkill"@.len() != "bind"@.len() && "tgkill"@.len() != "connect"@.len());
    } else if i == 66 {
        reveal_strlit("write"); assert(names[i] == "write"@);
        assert("write"@[0] != "clone"@[0] && "write"@.len() != "socket"@.len() && "write"@.len() != "bind"@.len() && "write"@.len() != "listen"@.len() && "write"@.len() != "connect"@.len());
    } else if i == 67 {
        reveal_strlit("writev"); assert(names[i] == "writev"@);
        assert("writev"@[0] != "socket"@[0] && "writev"@[0] != "listen"@[0] && "writev"@.len() != "clone"@.len() && "writev"@.len() != "bind"@.len() && "writev"@.len() != "connect"@.len());
    } else if i == 68 {
        reveal_strlit("readlink"); assert(names[i] == "readlink"@);
        assert("readlink"@.len() != "socket"@.len() && "readlink"@.len() != "clone"@.len() && "readlink"@.len() != "bind"@.len() && "readlink"@.len() != "listen"@.len() && "readlink"@.len() != "connect"@.len());
    } else {
        assert(false);
    }
}

/// The fixed table of unconditionally allowed syscalls: process lifecycle,
/// memory management, descriptor I/O, event-loop primitives, timers,
/// thread/futex primitives, and read-only filesystem lookups needed by the
/// supported language runtimes.  This table is the single point of change
/// when a new runtime's syscall footprint must be supported.
pub open spec fn base_allowed_names() -> Seq<Seq<char>> {
    seq![
        "ioctl"@,
        "poll"@,
        "lstat"@,
        "clock_gettime"@,
        "membarrier"@,
        "accept4"@,
        "access"@,
        "arch_prctl"@,
        "brk"@,
        "close"@,
        "epoll_create1"@,
        "epoll_ctl"@,
        "epoll_ctl_old"@,
        "epoll_pwait"@,
        "epoll_pwait2"@,
        "execve"@,
        "exit"@,
        "exit_group"@,
        "fcntl"@,
        "fstat"@,
        "fsync"@,
        "futex"@,
        "getdents64"@,
        "getpeername"@,
        "getpid"@,
        "getrandom"@,
        "getrlimit"@,
        "getsockname"@,
        "getsockopt"@,
        "gettid"@,
        "lseek"@,
        "madvise"@,
        "mkdirat"@,
        "mmap"@,
        "mremap"@,
        "mprotect"@,
        "munmap"@,
        "nanosleep"@,
        "newfstatat"@,
        "openat"@,
        "open"@,
        "pipe2"@,
        "pread64"@,
        "prlimit64"@,
        "read"@,
        "readlinkat"@,
        "recvfrom"@,
        "recvmsg"@,
        "restart_syscall"@,
        "rt_sigaction"@,
        "rt_sigprocmask"@,
        "rt_sigreturn"@,
        "sched_getaffinity"@,
        "sched_yield"@,
        "sendto"@,
        "sendmsg"@,
        "setitimer"@,
        "setsockopt"@,
        "set_robust_list"@,
        "set_tid_address"@,
        "sigaltstack"@,
        "sync"@,
        "timer_create"@,
        "timer_delete"@,
        "timer_settime"@,
        "tgkill"@,
        "write"@,
        "writev"@,
        "readlink"@,
    ]
}

/// The syscalls additionally admitted when network-proxy mode is disabled:
/// the process may then create and use its own sockets directly.
pub open spec fn noproxy_allowed_names() -> Seq<Seq<char>> {
    seq!["bind"@, "listen"@, "connect"@]
}

/// The allow-list for a proxy mode: with the proxy enabled the raw
/// networking syscalls are omitted, so the process must use the handed-off
/// descriptor.
pub open spec fn spec_allowed_names(proxy_enabled: bool) -> Seq<Seq<char>> {
    if proxy_enabled {
        base_allowed_names()
    } else {
        base_allowed_names() + noproxy_allowed_names()
    }
}

/// The `clone` rule: thread creation only.
pub open spec fn clone_rule() -> CondRuleView {
    CondRuleView {
        name: "clone"@,
        arg_index: 0,
        op: ArgOp::MaskedEqual { mask: CLONE_THREAD_PATTERN },
        value: CLONE_THREAD_PATTERN,
    }
}

/// The `socket` rule, present only without the proxy: any domain but the
/// raw-VM-socket domain.
pub open spec fn socket_rule() -> CondRuleView {
    CondRuleView { name: "socket"@, arg_index: 0, op: ArgOp::NotEqual, value: VSOCK_DOMAIN }
}

/// The conditional rules for a proxy mode.
pub open spec fn spec_cond_rules(proxy_enabled: bool) -> Seq<CondRuleView> {
    if proxy_enabled {
        seq![clone_rule()]
    } else {
        seq![clone_rule(), socket_rule()]
    }
}

/// The whole policy for a proxy mode.
pub open spec fn spec_policy(proxy_enabled: bool) -> PolicyView {
    PolicyView {
        deny_errno: DENY_ERRNO,
        allowed: spec_allowed_names(proxy_enabled),
        cond_allowed: spec_cond_rules(proxy_enabled),
    }
}

/// Build the policy for a proxy mode, exactly as [`spec_policy`] states it.
#[verifier::rlimit(60)]
pub fn build_policy(proxy_enabled: bool) -> (r: SeccompPolicy)
    ensures
        r@ == spec_policy(proxy_enabled),
{
    let mut allowed: Vec<String> = Vec::new();
    allowed.push(String::from_str("ioctl"));
    allowed.push(String::from_str("poll"));
    allowed.push(String::from_str("lstat"));
    allowed.push(String::from_str("clock_gettime"));
    allowed.push(String::from_str("membarrier"));
    allowed.push(String::from_str("accept4"));
    allowed.push(String::from_str("access"));
    allowed.push(String::from_str("arch_prctl"));
    allowed.push(String::from_str("brk"));
    allowed.push(String::from_str("close"));
    allowed.push(String::from_str("epoll_create1"));
    allowed.push(String::from_str("epoll_ctl"));
    allowed.push(String::from_str("epoll_ctl_old"));
    allowed.push(String::from_str("epoll_pwait"));
    allowed.push(String::from_str("epoll_pwait2"));
    allowed.push(String::from_str("execve"));
    allowed.push(String::from_str("exit"));
    allowed.push(String::from_str("exit_group"));
    allowed.push(String::from_str("fcntl"));
    allowed.push(String::from_str("fstat"));
    allowed.push(String::from_str("fsync"));
    allowed.push(String::from_str("futex"));
    allowed.push(String::from_str("getdents64"));
    allowed.push(String::from_str("getpeername"));
    allowed.push(String::from_str("getpid"));
    allowed.push(String::from_str("getrandom"));
    allowed.push(String::from_str("getrlimit"));
    allowed.push(String::from_str("getsockname"));
    allowed.push(String::from_str("getsockopt"));
    allowed.push(String::from_str("gettid"));
    allowed.push(String::from_str("lseek"));
    allowed.push(String::from_str("madvise"));
    allowed.push(String::from_str("mkdirat"));
    allowed.push(String::from_str("mmap"));
    allowed.push(String::from_str("mremap"));
    allowed.push(String::from_str("mprotect"));
    allowed.push(String::from_str("munmap"));
    allowed.push(String::from_str("nanosleep"));
    allowed.push(String::from_str("newfstatat"));
    allowed.push(String::from_str("openat"));
    allowed.push(String::from_str("open"));
    allowed.push(String::from_str("pipe2"));
    allowed.push(String::from_str("pread64"));
    allowed.push(String::from_str("prlimit64"));
    allowed.push(String::from_str("read"));
    allowed.push(String::from_str("readlinkat"));
    allowed.push(String::from_str("recvfrom"));
    allowed.push(String::from_str("recvmsg"));
    allowed.push(String::from_str("restart_syscall"));
    allowed.push(String::from_str("rt_sigaction"));
    allowed.push(String::from_str("rt_sigprocmask"));
    allowed.push(String::from_str("rt_sigreturn"));
    allowed.push(String::from_str("sched_getaffinity"));
    allowed.push(String::from_str("sched_yield"));
    allowed.push(String::from_str("sendto"));
    allowed.push(String::from_str("sendmsg"));
    allowed.push(String::from_str("setitimer"));
    allowed.push(String::from_str("setsockopt"));
    allowed.push(String::from_str("set_robust_list"));
    allowed.push(String::from_str("set_tid_address"));
    allowed.push(String::from_str("sigaltstack"));
    allowed.push(String::from_str("sync"));
    allowed.push(String::from_str("timer_create"));
    allowed.push(String::from_str("timer_delete"));
    allowed.push(String::from_str("timer_settime"));
    allowed.push(String::from_str("tgkill"));
    allowed.push(String::from_str("write"));
    allowed.push(String::from_str("writev"));
    allowed.push(String::from_str("readlink"));
    let mut cond_allowed: Vec<CondRule> = Vec::new();
    cond_allowed.push(
        CondRule {
            name: String::from_str("clone"),
            arg_index: 0,
            op: ArgOp::MaskedEqual { mask: CLONE_THREAD_PATTERN },
            value: CLONE_THREAD_PATTERN,
        },
    );
    if !proxy_enabled {
        allowed.push(String::from_str("bind"));
        allowed.push(String::from_str("listen"));
        allowed.push(String::from_str("connect"));
        cond_allowed.push(
            CondRule {
                name: String::from_str("socket"),
                arg_index: 0,
                op: ArgOp::NotEqual,
                value: VSOCK_DOMAIN,
            },
        );
    }
    let r = SeccompPolicy { deny_errno: DENY_ERRNO, allowed, cond_allowed };
    proof {
        assert(r@.allowed =~= spec_allowed_names(proxy_enabled));
        assert(r@.cond_allowed =~= spec_cond_rules(proxy_enabled));
        assert(r@ =~= spec_policy(proxy_enabled));
    }
    r
}

/// Evaluate the policy's decision for one syscall invocation, exactly as the
/// [`decision`] model states it.
pub fn evaluate(p: &SeccompPolicy, name: &String, args: &Vec<u64>) -> (r: SyscallDecision)
    ensures
        r == decision(p@, name@, args@),
{
    let mut i: usize = 0;
    while i < p.allowed.len()
        invariant
            i <= p.allowed@.len(),
            forall|j: int| 0 <= j < i ==> p@.allowed[j] != name@,
        decreases p.allowed@.len() - i,
    {
        if p.allowed[i].eq(name) {
            assert(p@.allowed[i as int] == name@);
            return SyscallDecision::Allow;
        }
        assert(p@.allowed[i as int] != name@);
        i = i + 1;
    }
    assert(!name_allowed(p@, name@));
    let mut i: usize = 0;
    while i < p.cond_allowed.len()
        invariant
            i <= p.cond_allowed@.len(),
            !name_allowed(p@, name@),
            forall|j: int| 0 <= j < i ==> !cond_rule_fires(p@.cond_allowed[j], name@, args@),
        decreases p.cond_allowed@.len() - i,
    {
        let rule = &p.cond_allowed[i];
        assert(p@.cond_allowed[i as int] == rule@);
        if rule.name.eq(name) && rule.arg_index < args.len() {
            let arg: u64 = args[rule.arg_index];
            let fires: bool = match rule.op {
                ArgOp::NotEqual => arg != rule.value,
                ArgOp::MaskedEqual { mask } => (arg & mask) == rule.value,
            };
            if fires {
                assert(cond_rule_fires(p@.cond_allowed[i as int], name@, args@));
                return SyscallDecision::Allow;
            }
        }
        i = i + 1;
    }
    SyscallDecision::DenyErrno(p.deny_errno)
}

/// Whatever the proxy mode, `socket` with the raw-VM-socket domain is denied
/// with the configured errno and the process is not terminated: with the
/// proxy disabled, its conditional rule does not fire on that domain; with
/// the proxy enabled, `socket` is not admitted at all.
pub proof fn lemma_vsock_domain_denied(proxy_enabled: bool, args: Seq<u64>)
    requires
        args.len() > 0,
        args[0] == VSOCK_DOMAIN,
    ensures
        decision(spec_policy(proxy_enabled), "socket"@, args) == SyscallDecision::DenyErrno(
            DENY_ERRNO,
        ),
{
    lemma_gated_names_not_in_base();
    reveal_strlit("socket");
    reveal_strlit("clone");
    reveal_strlit("bind");
    reveal_strlit("listen");
    reveal_strlit("connect");
    let p = spec_policy(proxy_enabled);
    assert("clone"@.len() != "socket"@.len());
    assert("bind"@.len() != "socket"@.len());
    assert("connect"@.len() != "socket"@.len());
    assert("listen"@[0] != "socket"@[0]);
    assert forall|i: int| 0 <= i < p.allowed.len() implies #[trigger] p.allowed[i] != "socket"@ by {
        if i < base_allowed_names().len() {
            assert(p.allowed[i] == base_allowed_names()[i]);
        }
    }
    assert(!name_allowed(p, "socket"@));
    assert(forall|i: int|
        0 <= i < p.cond_allowed.len() ==> !cond_rule_fires(
            #[trigger] p.cond_allowed[i],
            "socket"@,
            args,
        ));
}

/// `clone` is admitted exactly when its flags argument, masked against the
/// thread-creation pattern, equals that pattern: in-process thread and
/// coroutine creation passes, creation of new namespaces is denied.
pub proof fn lemma_clone_gated_on_thread_flags(proxy_enabled: bool, args: Seq<u64>)
    requires
        args.len() > 0,
    ensures
        decision(spec_policy(proxy_enabled), "clone"@, args) == SyscallDecision::Allow <==> args[0]
            & CLONE_THREAD_PATTERN == CLONE_THREAD_PATTERN,
{
    lemma_gated_names_not_in_base();
    reveal_strlit("socket");
    reveal_strlit("clone");
    reveal_strlit("bind");
    reveal_strlit("listen");
    reveal_strlit("connect");
    let p = spec_policy(proxy_enabled);
    assert("socket"@.len() != "clone"@.len());
    assert("bind"@.len() != "clone"@.len());
    assert("listen"@.len() != "clone"@.len());
    assert("connect"@.len() != "clone"@.len());
    assert forall|i: int| 0 <= i < p.allowed.len() implies #[trigger] p.allowed[i] != "clone"@ by {
        if i < base_allowed_names().len() {
            assert(p.allowed[i] == base_allowed_names()[i]);
        }
    }
    assert(!name_allowed(p, "clone"@));
    assert(p.cond_allowed[0] == clone_rule());
    if args[0] & CLONE_THREAD_PATTERN == CLONE_THREAD_PATTERN {
        assert(cond_rule_fires(p.cond_allowed[0], "clone"@, args));
    } else {
        assert(forall|i: int|
            0 <= i < p.cond_allowed.len() ==> !cond_rule_fires(
                #[trigger] p.cond_allowed[i],
                "clone"@,
                args,
            ));
    }
}

/// The direct networking syscalls are admitted exactly when network-proxy
/// mode is disabled: with the proxy enabled the process cannot create
/// sockets itself and must use the handed-off descriptor.
pub proof fn lemma_direct_networking_iff_no_proxy()
    ensures
        name_allowed(spec_policy(false), "bind"@),
        name_allowed(spec_policy(false), "listen"@),
        name_allowed(spec_policy(false), "connect"@),
        !name_allowed(spec_policy(true), "bind"@),
        !name_allowed(spec_policy(true), "listen"@),
        !name_allowed(spec_policy(true), "connect"@),
{
    lemma_gated_names_not_in_base();
    reveal_strlit("bind");
    reveal_strlit("listen");
    reveal_strlit("connect");
    let p0 = spec_policy(false);
    let p1 = spec_policy(true);
    assert(p0.allowed[69] == "bind"@);
    assert(p0.allowed[70] == "listen"@);
    assert(p0.allowed[71] == "connect"@);
    assert(name_allowed(p0, "bind"@));
    assert(name_allowed(p0, "listen"@));
    assert(name_allowed(p0, "connect"@));
    assert("bind"@.len() != "listen"@.len());
    assert("bind"@.len() != "connect"@.len());
    assert("listen"@.len() != "connect"@.len());
    assert(p1.allowed == base_allowed_names());
    assert forall|i: int| 0 <= i < p1.allowed.len() implies #[trigger] p1.allowed[i] != "bind"@
        && p1.allowed[i] != "listen"@ && p1.allowed[i] != "connect"@ by {
        assert(p1.allowed[i] == base_allowed_names()[i]);
    }
    assert(!name_allowed(p1, "bind"@));
    assert(!name_allowed(p1, "listen"@));
    assert(!name_allowed(p1, "connect"@));
}

} // verus!
