use exec_uproc::seccomp::{build_policy, evaluate, ArgOp, SyscallDecision};

fn name(s: &str) -> String {
    s.to_string()
}

#[test]
fn deny_errno_is_one() {
    assert_eq!(build_policy(false).deny_errno, 1);
    assert_eq!(build_policy(true).deny_errno, 1);
}

#[test]
fn allow_list_size_depends_on_proxy_mode() {
    let with_proxy = build_policy(true);
    let without_proxy = build_policy(false);
    assert_eq!(with_proxy.allowed.len(), 69);
    assert_eq!(without_proxy.allowed.len(), 72);
    assert_eq!(with_proxy.cond_allowed.len(), 1);
    assert_eq!(without_proxy.cond_allowed.len(), 2);
}

#[test]
fn allowlisted_syscalls_pass_whatever_their_arguments() {
    let p = build_policy(true);
    for n in ["read", "write", "execve", "exit_group", "futex", "epoll_pwait2", "readlink"] {
        assert_eq!(evaluate(&p, &name(n), &vec![]), SyscallDecision::Allow);
        assert_eq!(evaluate(&p, &name(n), &vec![40, 1, 2]), SyscallDecision::Allow);
    }
}

#[test]
fn unlisted_syscalls_fail_with_the_deny_errno() {
    let p = build_policy(false);
    for n in ["ptrace", "mount", "pivot_root", "unshare", "setns", "kexec_load"] {
        assert_eq!(evaluate(&p, &name(n), &vec![0, 0, 0]), SyscallDecision::DenyErrno(1));
    }
}

#[test]
fn socket_domain_forty_is_denied_in_both_modes() {
    let without_proxy = build_policy(false);
    let with_proxy = build_policy(true);
    assert_eq!(
        evaluate(&without_proxy, &name("socket"), &vec![40, 1, 0]),
        SyscallDecision::DenyErrno(1)
    );
    assert_eq!(
        evaluate(&with_proxy, &name("socket"), &vec![40, 1, 0]),
        SyscallDecision::DenyErrno(1)
    );
}

#[test]
fn socket_ordinary_domain_passes_only_without_proxy() {
    let without_proxy = build_policy(false);
    let with_proxy = build_policy(true);
    assert_eq!(
        evaluate(&without_proxy, &name("socket"), &vec![2, 1, 0]),
        SyscallDecision::Allow
    );
    assert_eq!(
        evaluate(&with_proxy, &name("socket"), &vec![2, 1, 0]),
        SyscallDecision::DenyErrno(1)
    );
}

#[test]
fn direct_networking_only_without_proxy() {
    let without_proxy = build_policy(false);
    let with_proxy = build_policy(true);
    for n in ["bind", "listen", "connect"] {
        assert_eq!(evaluate(&without_proxy, &name(n), &vec![]), SyscallDecision::Allow);
        assert_eq!(
            evaluate(&with_proxy, &name(n), &vec![]),
            SyscallDecision::DenyErrno(1)
        );
    }
}

#[test]
fn clone_gated_on_thread_creation_flags() {
    let p = build_policy(true);
    assert_eq!(
        evaluate(&p, &name("clone"), &vec![0x7E020000]),
        SyscallDecision::Allow
    );
    assert_eq!(
        evaluate(&p, &name("clone"), &vec![0x7E020011]),
        SyscallDecision::Allow
    );
    assert_eq!(
        evaluate(&p, &name("clone"), &vec![0]),
        SyscallDecision::DenyErrno(1)
    );
    assert_eq!(
        evaluate(&p, &name("clone"), &vec![0x00020000]),
        SyscallDecision::DenyErrno(1)
    );
}

#[test]
fn conditional_rules_are_exactly_clone_and_socket() {
    let p = build_policy(false);
    assert_eq!(p.cond_allowed[0].name, "clone");
    assert_eq!(p.cond_allowed[0].arg_index, 0);
    assert_eq!(p.cond_allowed[0].op, ArgOp::MaskedEqual { mask: 0x7E020000 });
    assert_eq!(p.cond_allowed[0].value, 0x7E020000);
    assert_eq!(p.cond_allowed[1].name, "socket");
    assert_eq!(p.cond_allowed[1].arg_index, 0);
    assert_eq!(p.cond_allowed[1].op, ArgOp::NotEqual);
    assert_eq!(p.cond_allowed[1].value, 40);
}
