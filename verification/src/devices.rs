//! The device access-control list: conversion of specification rules and
//! default device nodes into concrete controller rules, and their union with
//! the fixed built-in allow-list.

use vstd::prelude::*;

verus! {

/// Wildcard marker for a device major or minor number.
pub const WILDCARD: i64 = -1;

#[derive(Debug, Clone, Copy, PartialEq, Eq, Structural)]
pub enum DeviceType {
    Char,
    Block,
    All,
}

#[derive(Debug, Clone, Copy, PartialEq, Eq, Structural)]
pub enum DevicePermission {
    Read,
    Write,
    MkNod,
}

/// A default device node the process declares (only the fields the device
/// controller cares about).
#[derive(Debug, Clone)]
pub struct LinuxDevice {
    pub dev_type: String,
    pub major: i64,
    pub minor: i64,
}

/// One device access rule of the resource specification: an allow/deny
/// flag, a device type letter, optionally wildcarded major and minor
/// numbers, and a permission string over `r`, `w` and `m`.
#[derive(Debug, Clone)]
pub struct LinuxDeviceCgroup {
    pub allow: bool,
    pub dev_type: String,
    pub major: Option<i64>,
    pub minor: Option<i64>,
    pub access: String,
}

/// A concrete device rule, as the device controller's write interface
/// expects it.
#[derive(Debug, Clone)]
pub struct DeviceResource {
    pub allow: bool,
    pub devtype: DeviceType,
    pub major: i64,
    pub minor: i64,
    pub access: Vec<DevicePermission>,
}

/// The mathematical value of a `LinuxDevice`.
pub struct LinuxDeviceV {
    pub dev_type: Seq<char>,
    pub major: i64,
    pub minor: i64,
}

impl View for LinuxDevice {
    type V = LinuxDeviceV;

    open spec fn view(&self) -> LinuxDeviceV {
        LinuxDeviceV { dev_type: self.dev_type@, major: self.major, minor: self.minor }
    }
}

impl DeepView for LinuxDevice {
    type V = LinuxDeviceV;

    open spec fn deep_view(&self) -> LinuxDeviceV {
        self.view()
    }
}

/// The mathematical value of a `LinuxDeviceCgroup`.
pub struct LinuxDeviceCgroupV {
    pub allow: bool,
    pub dev_type: Seq<char>,
    pub major: Option<i64>,
    pub minor: Option<i64>,
    pub access: Seq<char>,
}

impl View for LinuxDeviceCgroup {
    type V = LinuxDeviceCgroupV;

    open spec fn view(&self) -> LinuxDeviceCgroupV {
        LinuxDeviceCgroupV {
            allow: self.allow,
            dev_type: self.dev_type@,
            major: self.major,
            minor: self.minor,
            access: self.access@,
        }
    }
}

impl DeepView for LinuxDeviceCgroup {
    type V = LinuxDeviceCgroupV;

    open spec fn deep_view(&self) -> LinuxDeviceCgroupV {
        self.view()
    }
}

/// The mathematical value of a `DeviceResource`.
pub struct DeviceResourceV {
    pub allow: bool,
    pub devtype: DeviceType,
    pub major: i64,
    pub minor: i64,
    pub access: Seq<DevicePermission>,
}

impl View for DeviceResource {
    type V = DeviceResourceV;

    open spec fn view(&self) -> DeviceResourceV {
        DeviceResourceV {
            allow: self.allow,
            devtype: self.devtype,
            major: self.major,
            minor: self.minor,
            access: self.access@,
        }
    }
}

impl DeepView for DeviceResource {
    type V = DeviceResourceV;

    open spec fn deep_view(&self) -> DeviceResourceV {
        self.view()
    }
}

/// The device type a type letter denotes: `c` is a character device, `b` a
/// block device, anything else the wildcard.
pub open spec fn device_type_of(s: Seq<char>) -> DeviceType {
    if s == "c"@ {
        DeviceType::Char
    } else if s == "b"@ {
        DeviceType::Block
    } else {
        DeviceType::All
    }
}

/// Maps a device type letter to the device type.
pub fn string_to_device_type(s: &String) -> (r: DeviceType)
    ensures
        r == device_type_of(s@),
{
    if crate::strutil::str_eq(s.as_str(), "c") {
        DeviceType::Char
    } else if crate::strutil::str_eq(s.as_str(), "b") {
        DeviceType::Block
    } else {
        DeviceType::All
    }
}

/// The permissions a permission string grants, in order: `r` grants read,
/// `w` write, `m` mknod; unrecognized characters are ignored, not rejected.
pub open spec fn perms_of(access: Seq<char>) -> Seq<DevicePermission>
    decreases access.len(),
{
    if access.len() == 0 {
        Seq::empty()
    } else {
        let rest = perms_of(access.drop_last());
        if access.last() == 'r' {
            rest.push(DevicePermission::Read)
        } else if access.last() == 'w' {
            rest.push(DevicePermission::Write)
        } else if access.last() == 'm' {
            rest.push(DevicePermission::MkNod)
        } else {
            rest
        }
    }
}

/// Parses a permission string.
pub fn parse_permissions(access: &str) -> (r: Vec<DevicePermission>)
    ensures
        r@ == perms_of(access@),
{
    let n = access.unicode_len();
    let mut r: Vec<DevicePermission> = Vec::new();
    let mut i: usize = 0;
    proof {
        assert(access@.take(0) =~= Seq::<char>::empty());
        assert(r@ =~= perms_of(access@.take(0)));
    }
    while i < n
        invariant
            0 <= i <= n,
            n == access@.len(),
            r@ == perms_of(access@.take(i as int)),
        decreases n - i,
    {
        proof {
            assert(access@.take(i + 1).drop_last() =~= access@.take(i as int));
            assert(access@.take(i + 1).last() == access@[i as int]);
        }
        let c = access.get_char(i);
        if c == 'r' {
            r.push(DevicePermission::Read);
        } else if c == 'w' {
            r.push(DevicePermission::Write);
        } else if c == 'm' {
            r.push(DevicePermission::MkNod);
        }
        i = i + 1;
    }
    proof {
        assert(access@.take(n as int) =~= access@);
    }
    r
}

/// The controller rule a default device node yields: always allowed, with
/// read, write and mknod permission.
pub open spec fn device_to_resource_spec(d: LinuxDeviceV) -> DeviceResourceV {
    DeviceResourceV {
        allow: true,
        devtype: device_type_of(d.dev_type),
        major: d.major,
        minor: d.minor,
        access: seq![DevicePermission::Read, DevicePermission::Write, DevicePermission::MkNod],
    }
}

/// Converts a default device node to a controller rule.
pub fn linux_device_to_cgroup_device(d: &LinuxDevice) -> (r: DeviceResource)
    ensures
        r@ == device_to_resource_spec(d@),
{
    let dev_type = string_to_device_type(&d.dev_type);
    let mut permissions: Vec<DevicePermission> = Vec::new();
    permissions.push(DevicePermission::Read);
    permissions.push(DevicePermission::Write);
    permissions.push(DevicePermission::MkNod);
    proof {
        assert(permissions@ =~= seq![
            DevicePermission::Read,
            DevicePermission::Write,
            DevicePermission::MkNod,
        ]);
    }
    DeviceResource { allow: true, devtype: dev_type, major: d.major, minor: d.minor, access: permissions }
}

/// The controller rule a specification rule yields: a wildcarded major or
/// minor becomes `0` here (the wildcard is expressed by the type field).
pub open spec fn group_to_resource_spec(d: LinuxDeviceCgroupV) -> DeviceResourceV {
    DeviceResourceV {
        allow: d.allow,
        devtype: device_type_of(d.dev_type),
        major: (match d.major {
            Some(m) => m,
            None => 0,
        }),
        minor: (match d.minor {
            Some(m) => m,
            None => 0,
        }),
        access: perms_of(d.access),
    }
}

/// Converts a specification rule to a controller rule.
pub fn linux_device_group_to_cgroup_device(d: &LinuxDeviceCgroup) -> (r: DeviceResource)
    ensures
        r@ == group_to_resource_spec(d@),
{
    let dev_type = string_to_device_type(&d.dev_type);
    let permissions = parse_permissions(d.access.as_str());
    let major = match d.major {
        Some(m) => m,
        None => 0,
    };
    let minor = match d.minor {
        Some(m) => m,
        None => 0,
    };
    DeviceResource { allow: d.allow, devtype: dev_type, major, minor, access: permissions }
}

/// The fixed built-in allow-list: mknod for any char or block device, and
/// full access to the console (5:1), the pseudo-terminal devices (136:*),
/// the pseudo-terminal multiplexer (5:2) and the network tun device
/// (10:200).
pub open spec fn builtin_allowed_devices_spec() -> Seq<LinuxDeviceCgroupV> {
    seq![
        LinuxDeviceCgroupV {
            allow: true,
            dev_type: "c"@,
            major: Some(WILDCARD),
            minor: Some(WILDCARD),
            access: "m"@,
        },
        LinuxDeviceCgroupV {
            allow: true,
            dev_type: "b"@,
            major: Some(WILDCARD),
            minor: Some(WILDCARD),
            access: "m"@,
        },
        LinuxDeviceCgroupV {
            allow: true,
            dev_type: "c"@,
            major: Some(5),
            minor: Some(1),
            access: "rwm"@,
        },
        LinuxDeviceCgroupV {
            allow: true,
            dev_type: "c"@,
            major: Some(136),
            minor: Some(WILDCARD),
            access: "rwm"@,
        },
        LinuxDeviceCgroupV {
            allow: true,
            dev_type: "c"@,
            major: Some(5),
            minor: Some(2),
            access: "rwm"@,
        },
        LinuxDeviceCgroupV {
            allow: true,
            dev_type: "c"@,
            major: Some(10),
            minor: Some(200),
            access: "rwm"@,
        },
    ]
}

fn builtin_entry(dev_type: &str, major: i64, minor: i64, access: &str) -> (r: LinuxDeviceCgroup)
    ensures
        r@ == (LinuxDeviceCgroupV {
            allow: true,
            dev_type: dev_type@,
            major: Some(major),
            minor: Some(minor),
            access: access@,
        }),
{
    LinuxDeviceCgroup {
        allow: true,
        dev_type: dev_type.to_owned(),
        major: Some(major),
        minor: Some(minor),
        access: access.to_owned(),
    }
}

/// The built-in allow-list as concrete rule records.
pub fn default_allowed_devices() -> (r: Vec<LinuxDeviceCgroup>)
    ensures
        r.deep_view() == builtin_allowed_devices_spec(),
{
    let mut r: Vec<LinuxDeviceCgroup> = Vec::new();
    r.push(builtin_entry("c", WILDCARD, WILDCARD, "m"));
    r.push(builtin_entry("b", WILDCARD, WILDCARD, "m"));
    r.push(builtin_entry("c", 5, 1, "rwm"));
    r.push(builtin_entry("c", 136, WILDCARD, "rwm"));
    r.push(builtin_entry("c", 5, 2, "rwm"));
    r.push(builtin_entry("c", 10, 200, "rwm"));
    proof {
        assert(r.deep_view() =~= builtin_allowed_devices_spec());
    }
    r
}

/// The controller rules of a list of specification rules, in order.
pub open spec fn groups_to_resources(ds: Seq<LinuxDeviceCgroupV>) -> Seq<DeviceResourceV>
    decreases ds.len(),
{
    if ds.len() == 0 {
        Seq::empty()
    } else {
        groups_to_resources(ds.drop_last()).push(group_to_resource_spec(ds.last()))
    }
}

/// The controller rules of a list of default device nodes, in order.
pub open spec fn nodes_to_resources(ds: Seq<LinuxDeviceV>) -> Seq<DeviceResourceV>
    decreases ds.len(),
{
    if ds.len() == 0 {
        Seq::empty()
    } else {
        nodes_to_resources(ds.drop_last()).push(device_to_resource_spec(ds.last()))
    }
}

pub proof fn lemma_groups_to_resources_index(ds: Seq<LinuxDeviceCgroupV>, i: int)
    requires
        0 <= i < ds.len(),
    ensures
        groups_to_resources(ds).len() == ds.len(),
        groups_to_resources(ds)[i] == group_to_resource_spec(ds[i]),
    decreases ds.len(),
{
    if i < ds.len() - 1 {
        lemma_groups_to_resources_index(ds.drop_last(), i);
    } else {
        lemma_groups_to_resources_len(ds.drop_last());
    }
}

pub proof fn lemma_groups_to_resources_len(ds: Seq<LinuxDeviceCgroupV>)
    ensures
        groups_to_resources(ds).len() == ds.len(),
    decreases ds.len(),
{
    if ds.len() > 0 {
        lemma_groups_to_resources_len(ds.drop_last());
    }
}

pub proof fn lemma_nodes_to_resources_len(ds: Seq<LinuxDeviceV>)
    ensures
        nodes_to_resources(ds).len() == ds.len(),
    decreases ds.len(),
{
    if ds.len() > 0 {
        lemma_nodes_to_resources_len(ds.drop_last());
    }
}

/// The device list handed to the controller: the specification's explicit
/// rules, then the process's default device nodes, then the built-in
/// allow-list — an additive union in that order, later entries never
/// removing earlier ones.
pub open spec fn device_list_spec(
    rules: Seq<LinuxDeviceCgroupV>,
    defaults: Seq<LinuxDeviceV>,
) -> Seq<DeviceResourceV> {
    groups_to_resources(rules) + nodes_to_resources(defaults) + groups_to_resources(
        builtin_allowed_devices_spec(),
    )
}

/// Whatever explicit rules and default nodes are given, every entry of the
/// built-in allow-list stands in the union: explicit rules never remove
/// built-in entries.
pub proof fn lemma_device_union_keeps_builtin(
    rules: Seq<LinuxDeviceCgroupV>,
    defaults: Seq<LinuxDeviceV>,
    k: int,
)
    requires
        0 <= k < builtin_allowed_devices_spec().len(),
    ensures
        device_list_spec(rules, defaults).contains(
            group_to_resource_spec(builtin_allowed_devices_spec()[k]),
        ),
{
    lemma_groups_to_resources_len(rules);
    lemma_nodes_to_resources_len(defaults);
    lemma_groups_to_resources_index(builtin_allowed_devices_spec(), k);
    let all = device_list_spec(rules, defaults);
    let idx = rules.len() + defaults.len() + k;
    assert(all[idx as int] == group_to_resource_spec(builtin_allowed_devices_spec()[k]));
}

/// Builds the full device list for one resource application.
pub fn build_device_list(rules: &Vec<LinuxDeviceCgroup>, defaults: &Vec<LinuxDevice>) -> (r: Vec<
    DeviceResource,
>)
    ensures
        r.deep_view() == device_list_spec(rules.deep_view(), defaults.deep_view()),
{
    let mut r: Vec<DeviceResource> = Vec::new();
    let n1 = rules.len();
    let mut i: usize = 0;
    proof {
        assert(rules.deep_view().take(0) =~= Seq::<LinuxDeviceCgroupV>::empty());
        assert(r.deep_view() =~= groups_to_resources(rules.deep_view().take(0)));
    }
    while i < n1
        invariant
            0 <= i <= n1,
            n1 == rules@.len(),
            rules.deep_view().len() == n1,
            r.deep_view() == groups_to_resources(rules.deep_view().take(i as int)),
        decreases n1 - i,
    {
        proof {
            assert(rules.deep_view()[i as int] == rules@[i as int]@);
            assert(rules.deep_view().take(i + 1).drop_last() =~= rules.deep_view().take(i as int));
            assert(rules.deep_view().take(i + 1).last() == rules.deep_view()[i as int]);
        }
        let ghost before = r.deep_view();
        let dev = linux_device_group_to_cgroup_device(&rules[i]);
        r.push(dev);
        proof {
            assert(r.deep_view() =~= before.push(dev@));
        }
        i = i + 1;
    }
    proof {
        assert(rules.deep_view().take(n1 as int) =~= rules.deep_view());
    }
    let ghost part1 = r.deep_view();
    let n2 = defaults.len();
    let mut j: usize = 0;
    proof {
        assert(defaults.deep_view().take(0) =~= Seq::<LinuxDeviceV>::empty());
        assert(r.deep_view() =~= part1 + nodes_to_resources(defaults.deep_view().take(0)));
    }
    while j < n2
        invariant
            0 <= j <= n2,
            n2 == defaults@.len(),
            defaults.deep_view().len() == n2,
            r.deep_view() == part1 + nodes_to_resources(defaults.deep_view().take(j as int)),
        decreases n2 - j,
    {
        proof {
            assert(defaults.deep_view()[j as int] == defaults@[j as int]@);
            assert(defaults.deep_view().take(j + 1).drop_last() =~= defaults.deep_view().take(
                j as int,
            ));
            assert(defaults.deep_view().take(j + 1).last() == defaults.deep_view()[j as int]);
        }
        let ghost before = r.deep_view();
        let dev = linux_device_to_cgroup_device(&defaults[j]);
        r.push(dev);
        proof {
            assert(r.deep_view() =~= before.push(dev@));
            assert(r.deep_view() =~= part1 + nodes_to_resources(defaults.deep_view().take(j + 1)));
        }
        j = j + 1;
    }
    proof {
        assert(defaults.deep_view().take(n2 as int) =~= defaults.deep_view());
    }
    let ghost part2 = r.deep_view();
    let builtin = default_allowed_devices();
    let n3 = builtin.len();
    proof {
        lemma_groups_to_resources_len(builtin_allowed_devices_spec());
        assert(builtin.deep_view().len() == 6);
    }
    let mut k: usize = 0;
    proof {
        assert(builtin.deep_view().take(0) =~= Seq::<LinuxDeviceCgroupV>::empty());
        assert(r.deep_view() =~= part2 + groups_to_resources(builtin.deep_view().take(0)));
    }
    while k < n3
        invariant
            0 <= k <= n3,
            n3 == builtin@.len(),
            builtin.deep_view().len() == n3,
            builtin.deep_view() == builtin_allowed_devices_spec(),
            r.deep_view() == part2 + groups_to_resources(builtin.deep_view().take(k as int)),
        decreases n3 - k,
    {
        proof {
            assert(builtin.deep_view()[k as int] == builtin@[k as int]@);
            assert(builtin.deep_view().take(k + 1).drop_last() =~= builtin.deep_view().take(
                k as int,
            ));
            assert(builtin.deep_view().take(k + 1).last() == builtin.deep_view()[k as int]);
        }
        let ghost before = r.deep_view();
        let dev = linux_device_group_to_cgroup_device(&builtin[k]);
        r.push(dev);
        proof {
            assert(r.deep_view() =~= before.push(dev@));
            assert(r.deep_view() =~= part2 + groups_to_resources(builtin.deep_view().take(k + 1)));
        }
        k = k + 1;
    }
    proof {
        assert(builtin.deep_view().take(n3 as int) =~= builtin.deep_view());
        assert(r.deep_view() =~= device_list_spec(rules.deep_view(), defaults.deep_view()));
    }
    r
}

} // verus!
