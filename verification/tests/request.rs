use exec_uproc::jail::{jail_dirs, jail_root, mount_plan};
use exec_uproc::mac;
use exec_uproc::orchestrator::{build_exec_context, build_request};
use exec_uproc::seccomp::{build_policy, evaluate, SyscallDecision};
use exec_uproc::SandboxError;

#[test]
fn proxy_mode_is_on_unless_the_argument_says_false() {
    let off = build_request(
        "42".to_string(),
        "/bin/user/echo".to_string(),
        &"false".to_string(),
        vec!["hello".to_string()],
        None,
        false,
        None,
    );
    assert!(!off.proxy_enabled);
    let on = build_request(
        "42".to_string(),
        "/bin/user/echo".to_string(),
        &"true".to_string(),
        vec![],
        None,
        false,
        None,
    );
    assert!(on.proxy_enabled);
}

#[test]
fn missing_environment_gets_placeholder_principal_and_zero_timestamp() {
    let req = build_request(
        "42".to_string(),
        "/bin/user/echo".to_string(),
        &"false".to_string(),
        vec![],
        None,
        false,
        None,
    );
    assert_eq!(req.principal, "NO_PRINCIPAL_IN_ENV");
    assert_eq!(req.prior_exec_us, 0);
}

#[test]
fn environment_values_carry_through() {
    let req = build_request(
        "42".to_string(),
        "/bin/user/echo".to_string(),
        &"true".to_string(),
        vec!["a".to_string(), "b".to_string()],
        Some("alice".to_string()),
        true,
        Some("1699999999123456".to_string()),
    );
    assert_eq!(req.pid, "42");
    assert_eq!(req.program, "/bin/user/echo");
    assert_eq!(req.args, vec!["a".to_string(), "b".to_string()]);
    assert_eq!(req.principal, "alice");
    assert!(req.perf_enabled);
    assert_eq!(req.prior_exec_us, 1699999999123456);
}

#[test]
fn malformed_timestamp_reads_as_zero() {
    let req = build_request(
        "42".to_string(),
        "/bin/user/echo".to_string(),
        &"false".to_string(),
        vec![],
        None,
        false,
        Some("not-a-number".to_string()),
    );
    assert_eq!(req.prior_exec_us, 0);
}

#[test]
fn exec_context_refreshes_timestamp_and_publishes_the_descriptor() {
    let req = build_request(
        "42".to_string(),
        "/bin/user/echo".to_string(),
        &"true".to_string(),
        vec!["hello".to_string()],
        Some("alice".to_string()),
        false,
        None,
    );
    let ctx = build_exec_context(&req, 1700000000000000, Some(7));
    assert_eq!(ctx.program, "/bin/user/echo");
    assert_eq!(ctx.argv, vec!["hello".to_string()]);
    assert_eq!(ctx.env.len(), 2);
    assert_eq!(ctx.env[0].key, "SIGMA_EXEC_TIME");
    assert_eq!(ctx.env[0].value, "1700000000000000");
    assert_eq!(ctx.env[1].key, "SIGMA_NETPROXY_FD");
    assert_eq!(ctx.env[1].value, "7");
}

#[test]
fn exec_context_without_proxy_has_only_the_timestamp() {
    let req = build_request(
        "42".to_string(),
        "/bin/user/echo".to_string(),
        &"false".to_string(),
        vec!["hello".to_string()],
        None,
        false,
        None,
    );
    let ctx = build_exec_context(&req, 123, None);
    assert_eq!(ctx.env.len(), 1);
    assert_eq!(ctx.env[0].key, "SIGMA_EXEC_TIME");
    assert_eq!(ctx.env[0].value, "123");
}

#[test]
fn apparmor_status_decides_enablement() {
    assert!(mac::apparmor_enabled_from_status("Y"));
    assert!(mac::apparmor_enabled_from_status("Y\n"));
    assert!(!mac::apparmor_enabled_from_status("N"));
    assert!(!mac::apparmor_enabled_from_status(""));
    assert!(!mac::apparmor_enabled_from_status("yes"));
}

#[test]
fn apparmor_directive_names_the_profile() {
    assert_eq!(
        mac::apparmor_directive("sigmaos-uproc"),
        "exec sigmaos-uproc"
    );
    assert_eq!(mac::apparmor_directive(&mac::uproc_profile_name()), "exec sigmaos-uproc");
    assert_eq!(
        mac::apparmor_status_path(),
        "/sys/module/apparmor/parameters/enabled"
    );
    assert_eq!(mac::apparmor_exec_path(), "/proc/self/attr/apparmor/exec");
}

#[test]
fn each_error_is_tagged_with_its_phase() {
    assert_eq!(SandboxError::FilesystemSetup.phase(), "jail");
    assert_eq!(SandboxError::Privilege.phase(), "setcap");
    assert_eq!(SandboxError::ProxyHandshake.phase(), "netproxy");
    assert_eq!(SandboxError::Policy.phase(), "seccomp");
    assert_eq!(SandboxError::MacSwitch.phase(), "apparmor");
    assert_eq!(SandboxError::ImageReplacement.phase(), "exec");
}

#[test]
fn request_42_echo_hello_without_proxy_sets_up_the_full_launch() {
    let req = build_request(
        "42".to_string(),
        "/bin/user/echo".to_string(),
        &"false".to_string(),
        vec!["hello".to_string()],
        None,
        false,
        None,
    );
    assert!(!req.proxy_enabled);
    assert_eq!(jail_root(&req.pid), "/home/sigmaos/jail/42/");
    let plan = mount_plan(req.perf_enabled);
    for target in ["lib", "usr", "etc", "proc", "bin"] {
        let covered = plan.iter().any(|m| m.target == target)
            || jail_dirs(&req.pid)
                .iter()
                .any(|d| d.ends_with(&format!("/{target}")));
        assert!(covered, "{target} must be part of the jail");
    }
    let policy = build_policy(req.proxy_enabled);
    for n in ["bind", "listen", "connect"] {
        assert_eq!(
            evaluate(&policy, &n.to_string(), &vec![]),
            SyscallDecision::Allow
        );
    }
    let ctx = build_exec_context(&req, 1, None);
    assert_eq!(ctx.program, "/bin/user/echo");
    assert_eq!(ctx.argv, vec!["hello".to_string()]);
}
