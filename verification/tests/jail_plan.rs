use exec_uproc::jail::{jail_dirs, jail_root, mount_plan, MountFs};

#[test]
fn jail_root_is_keyed_by_process_identifier() {
    assert_eq!(jail_root("42"), "/home/sigmaos/jail/42/");
    assert_eq!(jail_root("proc-7"), "/home/sigmaos/jail/proc-7/");
}

#[test]
fn distinct_identifiers_get_distinct_jail_roots() {
    assert_ne!(jail_root("42"), jail_root("43"));
    assert_ne!(jail_root("a"), jail_root("ab"));
    assert_ne!(jail_root(""), jail_root("x"));
}

#[test]
fn jail_directories_cover_every_mount_point() {
    let dirs = jail_dirs("42");
    let expected = vec![
        "/home/sigmaos/jail/42/",
        "/home/sigmaos/jail/42/oldroot",
        "/home/sigmaos/jail/42/lib",
        "/home/sigmaos/jail/42/usr",
        "/home/sigmaos/jail/42/lib64",
        "/home/sigmaos/jail/42/etc",
        "/home/sigmaos/jail/42/proc",
        "/home/sigmaos/jail/42/bin",
        "/home/sigmaos/jail/42/mnt",
        "/home/sigmaos/jail/42/tmp",
        "/home/sigmaos/jail/42/tmp/sigmaos-perf",
        "/home/sigmaos/jail/42/tmp/python",
        "/home/sigmaos/jail/42/tmp/spproxyd",
    ];
    assert_eq!(dirs, expected);
}

#[test]
fn mount_plan_is_read_only_but_for_the_perf_scratch() {
    let plan = mount_plan(true);
    for m in &plan {
        if m.fstype == MountFs::Bind && m.target != "tmp/sigmaos-perf" {
            assert!(m.readonly, "{} must be read-only", m.target);
        }
    }
    let scratch = plan.last().unwrap();
    assert_eq!(scratch.target, "tmp/sigmaos-perf");
    assert!(!scratch.readonly);
}

#[test]
fn perf_scratch_is_mounted_only_when_capture_is_enabled() {
    let without = mount_plan(false);
    let with = mount_plan(true);
    assert_eq!(without.len(), 10);
    assert_eq!(with.len(), 11);
    assert!(without.iter().all(|m| m.target != "tmp/sigmaos-perf"));
}

#[test]
fn mount_plan_orders_parents_before_children() {
    let plan = mount_plan(true);
    for (i, m) in plan.iter().enumerate() {
        if let Some(slash) = m.target.rfind('/') {
            let parent = &m.target[..slash];
            let parent_pos = plan.iter().position(|p| p.target == parent);
            if let Some(pos) = parent_pos {
                assert!(pos < i, "{} must come after {}", m.target, parent);
            }
        }
    }
}

#[test]
fn mount_plan_sources_and_types() {
    let plan = mount_plan(false);
    let pairs: Vec<(&str, &str)> = plan
        .iter()
        .map(|m| (m.source.as_str(), m.target.as_str()))
        .collect();
    assert_eq!(
        pairs,
        vec![
            ("/lib", "lib"),
            ("/lib64", "lib64"),
            ("/usr", "usr"),
            ("/etc", "etc"),
            ("proc", "proc"),
            ("/mnt/", "mnt"),
            ("/mnt/binfs/", "mnt/binfs"),
            ("/tmp/", "tmp"),
            ("/tmp/python", "tmp/python"),
            ("/tmp/spproxyd", "tmp/spproxyd"),
        ]
    );
    assert_eq!(plan[4].fstype, MountFs::Proc);
    assert!(plan.iter().enumerate().all(|(i, m)| i == 4 || m.fstype == MountFs::Bind));
}
