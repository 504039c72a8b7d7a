use cgman::errors::CgroupError;
use cgman::kvmap::KvMap;
use cgman::manager::{get_guest_cpuset_path, FreezerAction, FreezerState, Manager};
use cgman::resolver::{resolve_mounts, resolve_paths};

fn sample_manager(cpath: &str) -> Manager {
    let paths = resolve_paths("3:cpu,cpuacct:/\n2:cpuset:/\n1:memory:/");
    let table = "25 20 0:21 / /sys/fs/cgroup/cpu,cpuacct rw - cgroup cgroup rw,cpu,cpuacct\n\
                 26 20 0:22 / /sys/fs/cgroup/cpuset rw - cgroup cgroup rw,cpuset\n\
                 27 20 0:23 / /sys/fs/cgroup/memory rw - cgroup cgroup rw,memory\n";
    let mounts = resolve_mounts(table, &paths);
    Manager::new(cpath, paths, mounts).unwrap()
}

#[test]
fn new_rejects_relative_path() {
    let paths = KvMap::new();
    let mounts = KvMap::new();
    match Manager::new("relative/path", paths, mounts) {
        Err(e) => assert_eq!(e, CgroupError::PathNotAbsolute),
        Ok(_) => panic!("relative path accepted"),
    }
}

#[test]
fn new_derives_per_controller_paths() {
    let m = sample_manager("/vc/pod");
    assert_eq!(
        m.paths.get("cpu").map(|s| s.as_str()),
        Some("/sys/fs/cgroup/cpu,cpuacct/vc/pod")
    );
    assert_eq!(
        m.paths.get("memory").map(|s| s.as_str()),
        Some("/sys/fs/cgroup/memory/vc/pod")
    );
    assert_eq!(m.cpath, "/vc/pod");
}

#[test]
fn new_inserts_relative_segment_when_not_root() {
    let paths = resolve_paths("3:cpu:/agent");
    let mounts = resolve_mounts(
        "25 20 0:21 / /sys/fs/cgroup/cpu rw - cgroup cgroup rw,cpu",
        &paths,
    );
    let m = Manager::new("/c1", paths, mounts).unwrap();
    assert_eq!(
        m.paths.get("cpu").map(|s| s.as_str()),
        Some("/sys/fs/cgroup/cpu/agent/c1")
    );
}

#[test]
fn new_skips_controllers_without_mounts() {
    let paths = resolve_paths("3:cpu:/\n2:devices:/");
    let mounts = resolve_mounts(
        "25 20 0:21 / /sys/fs/cgroup/cpu rw - cgroup cgroup rw,cpu",
        &paths,
    );
    let m = Manager::new("/c", paths, mounts).unwrap();
    assert!(m.paths.get("cpu").is_some());
    assert!(m.paths.get("devices").is_none());
}

#[test]
fn cg_path_unified_is_single_tree() {
    let m = sample_manager("/vc/pod");
    assert_eq!(
        m.get_cg_path("memory", true).as_deref(),
        Some("/sys/fs/cgroup//vc/pod")
    );
}

#[test]
fn cg_path_legacy_is_per_controller() {
    let m = sample_manager("/vc/pod");
    assert_eq!(
        m.get_cg_path("memory", false).as_deref(),
        Some("/sys/fs/cgroup/memory/vc/pod")
    );
    assert_eq!(m.get_cg_path("devices", false), None);
}

#[test]
fn cpuset_empty_list_is_noop() {
    let m = sample_manager("/a/b/c");
    assert!(m.update_cpuset_path("").is_empty());
}

#[test]
fn cpuset_ancestors_outermost_first() {
    let m = sample_manager("/a/b/c");
    assert_eq!(m.update_cpuset_path("0-3"), vec!["/a", "/a/b"]);
}

#[test]
fn cpuset_direct_child_has_no_ancestors() {
    let m = sample_manager("/c1");
    assert!(m.update_cpuset_path("0-3").is_empty());
}

#[test]
fn freeze_resolves_states() {
    let m = sample_manager("/c");
    assert_eq!(m.freeze(FreezerState::Frozen), Ok(FreezerAction::Freeze));
    assert_eq!(m.freeze(FreezerState::Thawed), Ok(FreezerAction::Thaw));
    assert_eq!(
        m.freeze(FreezerState::Freezing),
        Err(CgroupError::InvalidFreezerState)
    );
}

#[test]
fn guest_cpuset_path_from_mounts() {
    let m = sample_manager("/c");
    assert_eq!(
        get_guest_cpuset_path(&m.mounts).unwrap(),
        "/sys/fs/cgroup/cpuset/cpuset.cpus"
    );
}

#[test]
fn guest_cpuset_missing_mount_fails() {
    let mounts: KvMap<String> = KvMap::new();
    assert_eq!(
        get_guest_cpuset_path(&mounts),
        Err(CgroupError::CpusetMountMissing)
    );
}

#[test]
fn kvmap_later_insert_shadows_earlier() {
    let mut m: KvMap<String> = KvMap::new();
    m.insert("k".to_string(), "v1".to_string());
    m.insert("k".to_string(), "v2".to_string());
    assert_eq!(m.get("k").map(|s| s.as_str()), Some("v2"));
    assert!(m.contains_key("k"));
    assert!(!m.contains_key("j"));
}
