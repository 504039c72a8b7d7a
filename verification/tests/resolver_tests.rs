use cgman::resolver::{resolve_mounts, resolve_paths};

#[test]
fn cgroup_line_systemd_alias_normalized() {
    let m = resolve_paths("4:name=systemd:/user.slice");
    assert_eq!(m.get("systemd").map(|s| s.as_str()), Some("/user.slice"));
    assert_eq!(m.get("name=systemd"), None);
}

#[test]
fn cgroup_two_field_line_skipped_rest_parsed() {
    let m = resolve_paths("4:name=systemd\n3:cpu:/a");
    assert_eq!(m.get("systemd"), None);
    assert_eq!(m.get("cpu").map(|s| s.as_str()), Some("/a"));
}

#[test]
fn cgroup_comma_list_maps_every_name() {
    let m = resolve_paths("3:cpu,cpuacct:/x\n2:memory:/y");
    assert_eq!(m.get("cpu").map(|s| s.as_str()), Some("/x"));
    assert_eq!(m.get("cpuacct").map(|s| s.as_str()), Some("/x"));
    assert_eq!(m.get("memory").map(|s| s.as_str()), Some("/y"));
}

#[test]
fn cgroup_four_field_line_skipped() {
    let m = resolve_paths("1:cpu:/a:junk");
    assert_eq!(m.get("cpu"), None);
}

#[test]
fn mount_row_other_fstype_excluded() {
    let paths = resolve_paths("3:cpu:/");
    // The options field matches the known controller name, but the
    // filesystem type is not cgroup/cgroup2: the row is excluded.
    let mounts = resolve_mounts(
        "25 20 0:21 / /sys/fs/other rw,relatime - tmpfs tmpfs rw,cpu",
        &paths,
    );
    assert_eq!(mounts.get("cpu"), None);
}

#[test]
fn mount_row_cgroup_parsed() {
    let paths = resolve_paths("3:cpu,cpuacct:/\n2:memory:/");
    let table = "25 20 0:21 / /sys/fs/cgroup/cpu,cpuacct rw,relatime shared:9 - cgroup cgroup rw,cpu,cpuacct\n\
                 26 20 0:22 / /sys/fs/cgroup/memory rw,relatime shared:10 - cgroup cgroup rw,memory\n";
    let mounts = resolve_mounts(table, &paths);
    assert_eq!(
        mounts.get("cpu").map(|s| s.as_str()),
        Some("/sys/fs/cgroup/cpu,cpuacct")
    );
    assert_eq!(
        mounts.get("cpuacct").map(|s| s.as_str()),
        Some("/sys/fs/cgroup/cpu,cpuacct")
    );
    assert_eq!(
        mounts.get("memory").map(|s| s.as_str()),
        Some("/sys/fs/cgroup/memory")
    );
}

#[test]
fn mount_row_cgroup2_parsed() {
    let paths = resolve_paths("0:cpu:/");
    let mounts = resolve_mounts(
        "30 20 0:26 / /sys/fs/cgroup rw - cgroup2 cgroup2 rw,cpu",
        &paths,
    );
    assert_eq!(mounts.get("cpu").map(|s| s.as_str()), Some("/sys/fs/cgroup"));
}

#[test]
fn mount_unknown_controller_name_ignored() {
    let paths = resolve_paths("3:cpu:/");
    let mounts = resolve_mounts(
        "25 20 0:21 / /sys/fs/cgroup/devices rw - cgroup cgroup rw,devices",
        &paths,
    );
    assert_eq!(mounts.get("devices"), None);
}

#[test]
fn mount_row_without_separator_skipped() {
    let paths = resolve_paths("3:cpu:/");
    let mounts = resolve_mounts("garbage row with no separator", &paths);
    assert_eq!(mounts.get("cpu"), None);
}

#[test]
fn mount_post_segment_ends_at_second_separator() {
    let paths = resolve_paths("3:cpu:/");
    // The post-separator segment runs only to the next " - " occurrence,
    // so this row's post segment has four fields and is skipped.
    let mounts = resolve_mounts(
        "25 20 0:21 / /mnt rw - cgroup cgroup rw,cpu extra - x y z",
        &paths,
    );
    assert_eq!(mounts.get("cpu"), None);
}
