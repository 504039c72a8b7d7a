use cgman::devices::{
    build_device_list, default_allowed_devices, linux_device_group_to_cgroup_device,
    linux_device_to_cgroup_device, parse_permissions, string_to_device_type, DevicePermission,
    DeviceResource, DeviceType, LinuxDevice, LinuxDeviceCgroup, WILDCARD,
};

fn deny_char_1_3() -> LinuxDeviceCgroup {
    LinuxDeviceCgroup {
        allow: false,
        dev_type: "c".to_string(),
        major: Some(1),
        minor: Some(3),
        access: "rwm".to_string(),
    }
}

fn same_rule(a: &DeviceResource, b: &DeviceResource) -> bool {
    a.allow == b.allow && a.devtype == b.devtype && a.major == b.major && a.minor == b.minor
        && a.access == b.access
}

#[test]
fn union_keeps_builtin_entries_despite_deny_rule() {
    let rules = vec![deny_char_1_3()];
    let defaults: Vec<LinuxDevice> = Vec::new();
    let list = build_device_list(&rules, &defaults);
    // The explicit deny rule comes first …
    assert_eq!(list.len(), 1 + 6);
    assert!(!list[0].allow);
    assert_eq!(list[0].major, 1);
    assert_eq!(list[0].minor, 3);
    // … and every built-in allow entry is still present.
    for builtin in &default_allowed_devices() {
        let expected = linux_device_group_to_cgroup_device(builtin);
        assert!(
            list.iter().any(|e| same_rule(e, &expected)),
            "built-in entry {:?}/{:?} missing",
            expected.major,
            expected.minor
        );
    }
}

#[test]
fn union_order_is_rules_defaults_builtin() {
    let rules = vec![deny_char_1_3()];
    let defaults = vec![LinuxDevice { dev_type: "c".to_string(), major: 1, minor: 5 }];
    let list = build_device_list(&rules, &defaults);
    assert_eq!(list.len(), 1 + 1 + 6);
    assert!(!list[0].allow);
    assert!(list[1].allow);
    assert_eq!(list[1].major, 1);
    assert_eq!(list[1].minor, 5);
    // First built-in entry: wildcard char device, mknod only.
    assert_eq!(list[2].devtype, DeviceType::Char);
    assert_eq!(list[2].major, WILDCARD);
    assert_eq!(list[2].minor, WILDCARD);
    assert_eq!(list[2].access, vec![DevicePermission::MkNod]);
    // Second: wildcard block device, mknod only.
    assert_eq!(list[3].devtype, DeviceType::Block);
    assert_eq!(list[3].access, vec![DevicePermission::MkNod]);
}

#[test]
fn builtin_list_contents() {
    let builtin = default_allowed_devices();
    assert_eq!(builtin.len(), 6);
    let expected = [
        ("c", WILDCARD, WILDCARD, "m"),
        ("b", WILDCARD, WILDCARD, "m"),
        ("c", 5, 1, "rwm"),
        ("c", 136, WILDCARD, "rwm"),
        ("c", 5, 2, "rwm"),
        ("c", 10, 200, "rwm"),
    ];
    for (entry, (t, major, minor, access)) in builtin.iter().zip(expected.iter()) {
        assert!(entry.allow);
        assert_eq!(entry.dev_type, *t);
        assert_eq!(entry.major, Some(*major));
        assert_eq!(entry.minor, Some(*minor));
        assert_eq!(entry.access, *access);
    }
}

#[test]
fn permission_parsing_ignores_unknown_characters() {
    assert_eq!(
        parse_permissions("rwm"),
        vec![DevicePermission::Read, DevicePermission::Write, DevicePermission::MkNod]
    );
    assert_eq!(parse_permissions("xrzw"), vec![DevicePermission::Read, DevicePermission::Write]);
    assert_eq!(parse_permissions(""), Vec::<DevicePermission>::new());
}

#[test]
fn device_type_letters() {
    assert_eq!(string_to_device_type(&"c".to_string()), DeviceType::Char);
    assert_eq!(string_to_device_type(&"b".to_string()), DeviceType::Block);
    assert_eq!(string_to_device_type(&"a".to_string()), DeviceType::All);
    assert_eq!(string_to_device_type(&"".to_string()), DeviceType::All);
}

#[test]
fn default_node_gets_full_access() {
    let node = LinuxDevice { dev_type: "b".to_string(), major: 8, minor: 0 };
    let rule = linux_device_to_cgroup_device(&node);
    assert!(rule.allow);
    assert_eq!(rule.devtype, DeviceType::Block);
    assert_eq!(rule.major, 8);
    assert_eq!(rule.minor, 0);
    assert_eq!(
        rule.access,
        vec![DevicePermission::Read, DevicePermission::Write, DevicePermission::MkNod]
    );
}

#[test]
fn wildcarded_numbers_become_zero_in_rule() {
    let rule = LinuxDeviceCgroup {
        allow: true,
        dev_type: "c".to_string(),
        major: None,
        minor: None,
        access: "r".to_string(),
    };
    let converted = linux_device_group_to_cgroup_device(&rule);
    assert_eq!(converted.major, 0);
    assert_eq!(converted.minor, 0);
    assert_eq!(converted.access, vec![DevicePermission::Read]);
}
