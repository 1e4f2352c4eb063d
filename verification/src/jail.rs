//! The filesystem jail: a private root assembled from bind mounts, switched
//! into atomically, with the old root detached and removed.
//!
//! All mount-namespace mutation happens here and completes before any other
//! stage runs; after [`jail_proc`] returns, no further mount or root-switch
//! operation occurs.  Failure at any step is fatal to the launch: a
//! half-built jail is never executed into.

use vstd::prelude::*;
use vstd::string::*;

use crate::SandboxError;

verus! {

/// The filesystem type of one mount step.
#[derive(Debug, Clone, Copy, PartialEq, Eq, Structural)]
pub enum MountFs {
    /// A bind mount of an existing host subtree.
    Bind,
    /// A fresh, namespace-scoped procfs instance.
    Proc,
}

/// One mount step: a source path, a target path relative to the new root,
/// the filesystem type, and whether the mapping is read-only.
#[derive(Debug, Clone)]
pub struct MountSpec {
    pub source: String,
    pub target: String,
    pub fstype: MountFs,
    pub readonly: bool,
}

/// The mathematical shadow of a mount step.
pub struct MountSpecView {
    pub source: Seq<char>,
    pub target: Seq<char>,
    pub fstype: MountFs,
    pub readonly: bool,
}

impl View for MountSpec {
    type V = MountSpecView;

    open spec fn view(&self) -> MountSpecView {
        MountSpecView {
            source: self.source@,
            target: self.target@,
            fstype: self.fstype,
            readonly: self.readonly,
        }
    }
}

/// The views of an ordered mount plan.
pub open spec fn plan_view(s: Seq<MountSpec>) -> Seq<MountSpecView> {
    Seq::new(s.len(), |i: int| s[i]@)
}

/// A read-only bind-mount step.
pub open spec fn bind_ro(source: Seq<char>, target: Seq<char>) -> MountSpecView {
    MountSpecView { source, target, fstype: MountFs::Bind, readonly: true }
}

/// A writable bind-mount step.
pub open spec fn bind_rw(source: Seq<char>, target: Seq<char>) -> MountSpecView {
    MountSpecView { source, target, fstype: MountFs::Bind, readonly: false }
}

/// The ordered mount plan of the jail: read-only bind mounts for the shared
/// system directories, a fresh procfs, and — only when performance capture
/// is enabled — a writable scratch directory for the metrics output.  Parent
/// targets come before their children.
pub open spec fn spec_mount_plan(perf_enabled: bool) -> Seq<MountSpecView> {
    let base = seq![
        bind_ro("/lib"@, "lib"@),
        bind_ro("/lib64"@, "lib64"@),
        bind_ro("/usr"@, "usr"@),
        bind_ro("/etc"@, "etc"@),
        MountSpecView { source: "proc"@, target: "proc"@, fstype: MountFs::Proc, readonly: false },
        bind_ro("/mnt/"@, "mnt"@),
        bind_ro("/mnt/binfs/"@, "mnt/binfs"@),
        bind_ro("/tmp/"@, "tmp"@),
        bind_ro("/tmp/python"@, "tmp/python"@),
        bind_ro("/tmp/spproxyd"@, "tmp/spproxyd"@),
    ];
    if perf_enabled {
        base.push(bind_rw("/tmp/sigmaos-perf"@, "tmp/sigmaos-perf"@))
    } else {
        base
    }
}

/// Every bind mount of the plan is read-only, except the performance-capture
/// scratch directory, which exists only when capture is enabled.
pub proof fn lemma_plan_readonly(perf_enabled: bool)
    ensures
        forall|i: int|
            0 <= i < spec_mount_plan(perf_enabled).len() && spec_mount_plan(
                perf_enabled,
            )[i].fstype is Bind && spec_mount_plan(perf_enabled)[i].target != "tmp/sigmaos-perf"@
                ==> spec_mount_plan(perf_enabled)[i].readonly,
        forall|i: int|
            0 <= i < spec_mount_plan(perf_enabled).len() && !spec_mount_plan(
                perf_enabled,
            )[i].readonly && spec_mount_plan(perf_enabled)[i].fstype is Bind ==> perf_enabled
                && spec_mount_plan(perf_enabled)[i].target == "tmp/sigmaos-perf"@,
{
}

/// The slot the old root is relocated onto is no mount target: after the
/// old root is detached and its directory removed, no step of the plan
/// brings anything back to it.
pub proof fn lemma_plan_avoids_oldroot(perf_enabled: bool, i: int)
    requires
        0 <= i < spec_mount_plan(perf_enabled).len(),
    ensures
        spec_mount_plan(perf_enabled)[i].target != "oldroot"@,
{
    reveal_strlit("oldroot");
    let plan = spec_mount_plan(perf_enabled);
    if i == 0 {
        reveal_strlit("lib"); assert(plan[i].target == "lib"@);
        assert("lib"@.len() != "oldroot"@.len());
    } else if i == 1 {
        reveal_strlit("lib64"); assert(plan[i].target == "lib64"@);
        assert("lib64"@.len() != "oldroot"@.len());
    } else if i == 2 {
        reveal_strlit("usr"); assert(plan[i].target == "usr"@);
        assert("usr"@.len() != "oldroot"@.len());
    } else if i == 3 {
        reveal_strlit("etc"); assert(plan[i].target == "etc"@);
        assert("etc"@.len() != "oldroot"@.len());
    } else if i == 4 {
        reveal_strlit("proc"); assert(plan[i].target == "proc"@);
        assert("proc"@.len() != "oldroot"@.len());
    } else if i == 5 {
        reveal_strlit("mnt"); assert(plan[i].target == "mnt"@);
        assert("mnt"@.len() != "oldroot"@.len());
    } else if i == 6 {
        reveal_strlit("mnt/binfs"); assert(plan[i].target == "mnt/binfs"@);
        assert("mnt/binfs"@.len() != "oldroot"@.len());
    } else if i == 7 {
        reveal_strlit("tmp"); assert(plan[i].target == "tmp"@);
        assert("tmp"@.len() != "oldroot"@.len());
    } else if i == 8 {
        reveal_strlit("tmp/python"); assert(plan[i].target == "tmp/python"@);
        assert("tmp/python"@.len() != "oldroot"@.len());
    } else if i == 9 {
        reveal_strlit("tmp/spproxyd"); assert(plan[i].target == "tmp/spproxyd"@);
        assert("tmp/spproxyd"@.len() != "oldroot"@.len());
    } else if i == 10 {
        reveal_strlit("tmp/sigmaos-perf"); assert(plan[i].target == "tmp/sigmaos-perf"@);
        assert("tmp/sigmaos-perf"@.len() != "oldroot"@.len());
    } else {
        assert(false);
    }
}

/// The per-node template path under which every jail root lives.
pub open spec fn jail_template() -> Seq<char> {
    "/home/sigmaos/jail/"@
}

/// The jail root of one process: the template path, the process identifier,
/// and a trailing separator.
pub open spec fn jail_root_path(pid: Seq<char>) -> Seq<char> {
    jail_template() + pid + "/"@
}

/// Two invocations with distinct process identifiers get distinct jail
/// roots, so they never observe each other's jail directories or mounts.
pub proof fn lemma_jail_roots_distinct(pid1: Seq<char>, pid2: Seq<char>)
    requires
        pid1 != pid2,
    ensures
        jail_root_path(pid1) != jail_root_path(pid2),
{
    let t = jail_template();
    let r1 = jail_root_path(pid1);
    let r2 = jail_root_path(pid2);
    if r1 == r2 {
        assert(r1.len() == t.len() + pid1.len() + "/"@.len());
        assert(r2.len() == t.len() + pid2.len() + "/"@.len());
        assert(pid1.len() == pid2.len());
        assert forall|i: int| 0 <= i < pid1.len() implies pid1[i] == pid2[i] by {
            assert(r1[t.len() as int + i] == pid1[i]);
            assert(r2[t.len() as int + i] == pid2[i]);
        }
        assert(pid1 =~= pid2);
    }
}

/// A process identifier that is a single path component: it contains no
/// separator.
pub open spec fn separator_free(pid: Seq<char>) -> bool {
    forall|i: int| 0 <= i < pid.len() ==> pid[i] != '/'
}

/// Two jail roots with distinct separator-free identifiers never stand at
/// the head of one common path: nothing under one root is also under the
/// other.
proof fn lemma_roots_prefix_free(pid1: Seq<char>, pid2: Seq<char>, x: Seq<char>, y: Seq<char>)
    requires
        pid1 != pid2,
        separator_free(pid1),
        separator_free(pid2),
    ensures
        jail_root_path(pid1) + x != jail_root_path(pid2) + y,
{
    reveal_strlit("/");
    let t = jail_template();
    let r1 = jail_root_path(pid1) + x;
    let r2 = jail_root_path(pid2) + y;
    if r1 == r2 {
        assert(r1[(t.len() + pid1.len()) as int] == "/"@[0]);
        assert(r2[(t.len() + pid2.len()) as int] == "/"@[0]);
        assert("/"@[0] == '/');
        if pid1.len() < pid2.len() {
            assert(r2[(t.len() + pid1.len()) as int] == pid2[pid1.len() as int]);
        } else if pid2.len() < pid1.len() {
            assert(r1[(t.len() + pid2.len()) as int] == pid1[pid2.len() as int]);
        } else {
            assert forall|i: int| 0 <= i < pid1.len() implies pid1[i] == pid2[i] by {
                assert(r1[t.len() as int + i] == pid1[i]);
                assert(r2[t.len() as int + i] == pid2[i]);
            }
            assert(pid1 =~= pid2);
        }
    }
}

/// Isolation of whole jails: with distinct, separator-free process
/// identifiers, no directory of one invocation's jail coincides with any
/// directory of another's, so concurrent invocations never observe each
/// other's jail directories or mounts.  (An identifier holding a separator
/// can make one jail's subdirectory another jail's root, which is why
/// identifiers are single path components.)
pub proof fn lemma_jails_disjoint(pid1: Seq<char>, pid2: Seq<char>, i: int, j: int)
    requires
        pid1 != pid2,
        separator_free(pid1),
        separator_free(pid2),
        0 <= i < jail_dir_paths(pid1).len(),
        0 <= j < jail_dir_paths(pid2).len(),
    ensures
        jail_dir_paths(pid1)[i] != jail_dir_paths(pid2)[j],
{
    let root1 = jail_root_path(pid1);
    let root2 = jail_root_path(pid2);
    let s1: Seq<char> = if i == 0 {
        Seq::empty()
    } else {
        jail_dir_names()[i - 1]
    };
    let s2: Seq<char> = if j == 0 {
        Seq::empty()
    } else {
        jail_dir_names()[j - 1]
    };
    assert(jail_dir_paths(pid1)[i] == root1 + s1) by {
        if i == 0 {
            assert(root1 + Seq::<char>::empty() =~= root1);
        }
    }
    assert(jail_dir_paths(pid2)[j] == root2 + s2) by {
        if j == 0 {
            assert(root2 + Seq::<char>::empty() =~= root2);
        }
    }
    lemma_roots_prefix_free(pid1, pid2, s1, s2);
}

/// The directories created inside a fresh jail root, in creation order: the
/// root itself, the slot the old root is pivoted onto, and every mount-point
/// subdirectory, parents before children.
pub open spec fn jail_dir_names() -> Seq<Seq<char>> {
    seq![
        "oldroot"@,
        "lib"@,
        "usr"@,
        "lib64"@,
        "etc"@,
        "proc"@,
        "bin"@,
        "mnt"@,
        "tmp"@,
        "tmp/sigmaos-perf"@,
        "tmp/python"@,
        "tmp/spproxyd"@,
    ]
}

/// The full paths created for one process's jail: the jail root, then each
/// jail directory under it.
pub open spec fn jail_dir_paths(pid: Seq<char>) -> Seq<Seq<char>> {
    seq![jail_root_path(pid)] + jail_dir_names().map_values(|d: Seq<char>| jail_root_path(pid) + d)
}

/// A path component that names an actual directory entry: not `..`, not
/// `.`, not empty.
pub open spec fn is_plain_component(c: Seq<char>) -> bool {
    c != ".."@ && c != "."@ && c.len() != 0
}

/// Resolution of a relative path from the process's root directory, the way
/// the kernel resolves it after the root switch: `.` and empty components
/// are skipped, and `..` climbs one level but never above the root, because
/// the root directory is its own parent.
pub open spec fn resolve_from_root(segs: Seq<Seq<char>>) -> Seq<Seq<char>>
    decreases segs.len(),
{
    if segs.len() == 0 {
        Seq::empty()
    } else {
        let prefix = resolve_from_root(segs.drop_last());
        let last = segs.last();
        if last == ".."@ {
            if prefix.len() == 0 {
                prefix
            } else {
                prefix.drop_last()
            }
        } else if last == "."@ || last.len() == 0 {
            prefix
        } else {
            prefix.push(last)
        }
    }
}

/// Path traversal from the new root is confined: whatever relative path a
/// process inside the jail names — `..` climbing included — it resolves to a
/// sequence of plain components below the jail root, so only the configured
/// mount set is reachable.
pub proof fn lemma_traversal_confined(segs: Seq<Seq<char>>)
    ensures
        forall|k: int|
            0 <= k < resolve_from_root(segs).len() ==> is_plain_component(
                #[trigger] resolve_from_root(segs)[k],
            ),
    decreases segs.len(),
{
    if segs.len() > 0 {
        lemma_traversal_confined(segs.drop_last());
        let prefix = resolve_from_root(segs.drop_last());
        let last = segs.last();
        if last == ".."@ && prefix.len() > 0 {
            assert(forall|k: int|
                0 <= k < prefix.len() - 1 ==> #[trigger] prefix.drop_last()[k] == prefix[k]);
        }
    }
}

/// Build the jail root path for a process identifier.
pub fn jail_root(pid: &str) -> (r: String)
    ensures
        r@ == jail_root_path(pid@),
{
    let mut r = String::from_str("/home/sigmaos/jail/");
    r.append(pid);
    r.append("/");
    r
}

/// Build the ordered list of directories to create for one process's jail.
pub fn jail_dirs(pid: &str) -> (r: Vec<String>)
    ensures
        r.deep_view() == jail_dir_paths(pid@),
{
    let root = jail_root(pid);
    let mut r: Vec<String> = Vec::new();
    r.push(root.clone());
    let mut d = root.clone();
    d.append("oldroot");
    r.push(d);
    let mut d = root.clone();
    d.append("lib");
    r.push(d);
    let mut d = root.clone();
    d.append("usr");
    r.push(d);
    let mut d = root.clone();
    d.append("lib64");
    r.push(d);
    let mut d = root.clone();
    d.append("etc");
    r.push(d);
    let mut d = root.clone();
    d.append("proc");
    r.push(d);
    let mut d = root.clone();
    d.append("bin");
    r.push(d);
    let mut d = root.clone();
    d.append("mnt");
    r.push(d);
    let mut d = root.clone();
    d.append("tmp");
    r.push(d);
    let mut d = root.clone();
    d.append("tmp/sigmaos-perf");
    r.push(d);
    let mut d = root.clone();
    d.append("tmp/python");
    r.push(d);
    let mut d = root.clone();
    d.append("tmp/spproxyd");
    r.push(d);
    proof {
        assert(r.deep_view() =~= jail_dir_paths(pid@));
    }
    r
}

/// Build the ordered mount plan for one invocation.
pub fn mount_plan(perf_enabled: bool) -> (r: Vec<MountSpec>)
    ensures
        plan_view(r@) == spec_mount_plan(perf_enabled),
{
    let mut r: Vec<MountSpec> = Vec::new();
    r.push(
        MountSpec {
            source: String::from_str("/lib"),
            target: String::from_str("lib"),
            fstype: MountFs::Bind,
            readonly: true,
        },
    );
    r.push(
        MountSpec {
            source: String::from_str("/lib64"),
            target: String::from_str("lib64"),
            fstype: MountFs::Bind,
            readonly: true,
        },
    );
    r.push(
        MountSpec {
            source: String::from_str("/usr"),
            target: String::from_str("usr"),
            fstype: MountFs::Bind,
            readonly: true,
        },
    );
    r.push(
        MountSpec {
            source: String::from_str("/etc"),
            target: String::from_str("etc"),
            fstype: MountFs::Bind,
            readonly: true,
        },
    );
    r.push(
        MountSpec {
            source: String::from_str("proc"),
            target: String::from_str("proc"),
            fstype: MountFs::Proc,
            readonly: false,
        },
    );
    r.push(
        MountSpec {
            source: String::from_str("/mnt/"),
            target: String::from_str("mnt"),
            fstype: MountFs::Bind,
            readonly: true,
        },
    );
    r.push(
        MountSpec {
            source: String::from_str("/mnt/binfs/"),
            target: String::from_str("mnt/binfs"),
            fstype: MountFs::Bind,
            readonly: true,
        },
    );
    r.push(
        MountSpec {
            source: String::from_str("/tmp/"),
            target: String::from_str("tmp"),
            fstype: MountFs::Bind,
            readonly: true,
        },
    );
    r.push(
        MountSpec {
            source: String::from_str("/tmp/python"),
            target: String::from_str("tmp/python"),
            fstype: MountFs::Bind,
            readonly: true,
        },
    );
    r.push(
        MountSpec {
            source: String::from_str("/tmp/spproxyd"),
            target: String::from_str("tmp/spproxyd"),
            fstype: MountFs::Bind,
            readonly: true,
        },
    );
    if perf_enabled {
        r.push(
            MountSpec {
                source: String::from_str("/tmp/sigmaos-perf"),
                target: String::from_str("tmp/sigmaos-perf"),
                fstype: MountFs::Bind,
                readonly: false,
            },
        );
    }
    proof {
        assert(plan_view(r@) =~= spec_mount_plan(perf_enabled));
    }
    r
}

/// The outcome of one directory-creation attempt.
pub enum MkdirOutcome {
    Created,
    AlreadyExists,
    Failed,
}

/// Relies on nix::unistd::mkdir (mkdir(2)) with mode 0755: creates the
/// directory, or reports that it already exists, or fails.
#[verifier::external_body]
fn sys_mkdir(path: &String) -> (r: MkdirOutcome) {
    match nix::unistd::mkdir(path.as_str(), nix::sys::stat::Mode::from_bits_truncate(0o755)) {
        Ok(()) => MkdirOutcome::Created,
        Err(nix::errno::Errno::EEXIST) => MkdirOutcome::AlreadyExists,
        Err(_) => MkdirOutcome::Failed,
    }
}

/// Relies on nix::unistd::chdir (chdir(2)): change the working directory.
#[verifier::external_body]
fn sys_chdir(path: &str) -> (r: Result<(), ()>) {
    nix::unistd::chdir(path).map_err(|_| ())
}

/// Relies on sys_mount's Mount::builder (mount(2)) with BIND | RDONLY: map
/// an existing host subtree read-only onto a target path.
#[verifier::external_body]
fn sys_mount_bind_ro(source: &String, target: &String) -> (r: Result<(), ()>) {
    sys_mount::Mount::builder()
        .fstype("none")
        .flags(sys_mount::MountFlags::BIND | sys_mount::MountFlags::RDONLY)
        .mount(source.as_str(), target.as_str())
        .map(|_| ())
        .map_err(|_| ())
}

/// Relies on sys_mount's Mount::builder (mount(2)) with BIND: map an
/// existing host subtree writable onto a target path.
#[verifier::external_body]
fn sys_mount_bind_rw(source: &String, target: &String) -> (r: Result<(), ()>) {
    sys_mount::Mount::builder()
        .fstype("none")
        .flags(sys_mount::MountFlags::BIND)
        .mount(source.as_str(), target.as_str())
        .map(|_| ())
        .map_err(|_| ())
}

/// Relies on sys_mount's Mount::builder (mount(2)) with BIND | REC: bind a
/// subtree recursively onto a target, used to self-bind the jail root so it
/// qualifies as a distinct mount point for the root switch.
#[verifier::external_body]
fn sys_mount_bind_rec(source: &String, target: &String) -> (r: Result<(), ()>) {
    sys_mount::Mount::builder()
        .fstype("")
        .flags(sys_mount::MountFlags::BIND | sys_mount::MountFlags::REC)
        .mount(source.as_str(), target.as_str())
        .map(|_| ())
        .map_err(|_| ())
}

/// Relies on sys_mount's Mount::builder (mount(2)) with filesystem type
/// "proc": mount a fresh, namespace-scoped procfs instance at the target.
#[verifier::external_body]
fn sys_mount_procfs(source: &String, target: &String) -> (r: Result<(), ()>) {
    sys_mount::Mount::builder()
        .fstype("proc")
        .mount(source.as_str(), target.as_str())
        .map(|_| ())
        .map_err(|_| ())
}

/// Relies on nix::unistd::pivot_root (pivot_root(2)): atomically exchange
/// the process's root for the new root, relocating the old root under the
/// given subpath.
#[verifier::external_body]
fn sys_pivot_root(new_root: &str, put_old: &str) -> (r: Result<(), ()>) {
    nix::unistd::pivot_root(new_root, put_old).map_err(|_| ())
}

/// Relies on sys_mount's unmount (umount2(2)) with DETACH: lazily unmount
/// the target — the unmount succeeds immediately, and the underlying
/// resources are freed once no longer referenced.
#[verifier::external_body]
fn sys_unmount_detach(target: &str) -> (r: Result<(), ()>) {
    sys_mount::unmount(target, sys_mount::UnmountFlags::DETACH).map_err(|_| ())
}

/// Relies on nix::unistd::unlinkat (unlinkat(2)) with AT_REMOVEDIR: remove
/// an empty directory.
#[verifier::external_body]
fn sys_rmdir(path: &str) -> (r: Result<(), ()>) {
    nix::unistd::unlinkat(None, path, nix::unistd::UnlinkatFlags::RemoveDir).map_err(|_| ())
}

/// Create a directory, tolerating one that already exists.
fn ensure_dir(path: &String) -> (r: Result<(), ()>) {
    match sys_mkdir(path) {
        MkdirOutcome::Created => Ok(()),
        MkdirOutcome::AlreadyExists => Ok(()),
        MkdirOutcome::Failed => Err(()),
    }
}

/// Perform one step of the mount plan.
fn apply_mount(m: &MountSpec) -> (r: Result<(), ()>) {
    match m.fstype {
        MountFs::Proc => sys_mount_procfs(&m.source, &m.target),
        MountFs::Bind => {
            if m.readonly {
                sys_mount_bind_ro(&m.source, &m.target)
            } else {
                sys_mount_bind_rw(&m.source, &m.target)
            }
        },
    }
}

/// Assemble the jail for one process and switch into it: create the
/// directory tree (tolerating pre-existing directories), self-bind the jail
/// root so it is a distinct mount point, change into it, perform every step
/// of the mount plan in order, switch roots with the old root relocated
/// under its fixed subpath, change to the new "/", lazily detach the old
/// root and remove its now-empty directory.
///
/// On success the returned plan is exactly the applied mount set.  Any
/// failure is fatal: no retry is safe from a partially mutated mount state.
pub fn jail_proc(pid: &str, perf_enabled: bool) -> (r: Result<Vec<MountSpec>, SandboxError>)
    ensures
        r is Ok ==> plan_view(r->Ok_0@) == spec_mount_plan(perf_enabled),
        r is Err ==> r->Err_0 == SandboxError::FilesystemSetup,
{
    let mut dirs: Vec<String> = Vec::new();
    dirs.push(String::from_str("/home"));
    dirs.push(String::from_str("/home/sigmaos"));
    dirs.push(String::from_str("/home/sigmaos/jail"));
    let mut jdirs = jail_dirs(pid);
    dirs.append(&mut jdirs);
    let mut i: usize = 0;
    while i < dirs.len()
        invariant
            i <= dirs@.len(),
        decreases dirs@.len() - i,
    {
        if ensure_dir(&dirs[i]).is_err() {
            return Err(SandboxError::FilesystemSetup);
        }
        i = i + 1;
    }
    let root = jail_root(pid);
    if sys_mount_bind_rec(&root, &root).is_err() {
        return Err(SandboxError::FilesystemSetup);
    }
    if sys_chdir(root.as_str()).is_err() {
        return Err(SandboxError::FilesystemSetup);
    }
    let plan = mount_plan(perf_enabled);
    let mut i: usize = 0;
    while i < plan.len()
        invariant
            plan_view(plan@) == spec_mount_plan(perf_enabled),
        decreases plan@.len() - i,
    {
        if apply_mount(&plan[i]).is_err() {
            return Err(SandboxError::FilesystemSetup);
        }
        i = i + 1;
    }
    if sys_pivot_root(".", "oldroot").is_err() {
        return Err(SandboxError::FilesystemSetup);
    }
    if sys_chdir("/").is_err() {
        return Err(SandboxError::FilesystemSetup);
    }
    if sys_unmount_detach("oldroot").is_err() {
        return Err(SandboxError::FilesystemSetup);
    }
    if sys_rmdir("oldroot").is_err() {
        return Err(SandboxError::FilesystemSetup);
    }
    Ok(plan)
}

} // verus!
