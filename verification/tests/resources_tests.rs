use cgman::errors::CgroupError;
use cgman::resources::{
    build_blkio_plan, build_cpu_plan, build_memory_plan, build_pids_plan, build_resource_plan,
    LinuxBlockIo, LinuxBlockIoDevice, LinuxCpu, LinuxHugepageLimit, LinuxMemory, LinuxNetwork,
    LinuxPids, LinuxResources, LinuxThrottleDevice, LinuxWeightDevice, PidsLimit,
};

fn empty_cpu() -> LinuxCpu {
    LinuxCpu {
        shares: None,
        quota: None,
        period: None,
        realtime_runtime: None,
        realtime_period: None,
        cpus: String::new(),
        mems: String::new(),
    }
}

fn empty_memory() -> LinuxMemory {
    LinuxMemory {
        limit: None,
        reservation: None,
        swap: None,
        kernel: None,
        kernel_tcp: None,
        swapiness: None,
        disable_oom_killer: None,
    }
}

fn empty_resources() -> LinuxResources {
    LinuxResources {
        cpu: None,
        memory: None,
        pids: None,
        block_io: None,
        hugepage_limits: Vec::new(),
        network: None,
        devices: Vec::new(),
    }
}

#[test]
fn cpu_shares_converted_under_unified() {
    let mut cpu = empty_cpu();
    cpu.shares = Some(2);
    let p = build_cpu_plan(&cpu, true);
    assert_eq!(p.shares, Some(1));
    let p1 = build_cpu_plan(&cpu, false);
    assert_eq!(p1.shares, Some(2));
}

#[test]
fn cpu_unset_fields_skipped() {
    let p = build_cpu_plan(&empty_cpu(), false);
    assert_eq!(p.cpus, None);
    assert_eq!(p.mems, None);
    assert_eq!(p.shares, None);
    assert_eq!(p.quota_and_period, None);
    assert_eq!(p.rt_runtime, None);
    assert_eq!(p.rt_period, None);
}

#[test]
fn cpu_quota_pairs_with_period() {
    let mut cpu = empty_cpu();
    cpu.quota = Some(50000);
    let p = build_cpu_plan(&cpu, false);
    assert_eq!(p.quota_and_period, Some((50000, 0)));
    cpu.period = Some(100000);
    let p2 = build_cpu_plan(&cpu, false);
    assert_eq!(p2.quota_and_period, Some((50000, 100000)));
}

#[test]
fn cpuset_lists_carried_when_nonempty() {
    let mut cpu = empty_cpu();
    cpu.cpus = "0-3,7".to_string();
    let p = build_cpu_plan(&cpu, false);
    assert_eq!(p.cpus.as_deref(), Some("0-3,7"));
    assert_eq!(p.mems, None);
}

#[test]
fn memory_swap_error_propagates_under_unified() {
    let mut mem = empty_memory();
    mem.limit = Some(100);
    mem.swap = Some(50);
    assert_eq!(
        build_memory_plan(&mem, true, false),
        Err(CgroupError::SwapBelowMemoryLimit)
    );
    // Under the legacy hierarchy the same input passes through unconverted.
    let plan = build_memory_plan(&mem, false, false).unwrap();
    assert_eq!(plan.memswap_limit, Some(50));
}

#[test]
fn memory_swap_converted_under_unified() {
    let mut mem = empty_memory();
    mem.limit = Some(100);
    mem.swap = Some(150);
    let plan = build_memory_plan(&mem, true, false).unwrap();
    assert_eq!(plan.memswap_limit, Some(50));
}

#[test]
fn memory_kmem_accounting_only_on_first_application() {
    let plan = build_memory_plan(&empty_memory(), false, false).unwrap();
    assert!(plan.init_kmem_accounting);
    let plan2 = build_memory_plan(&empty_memory(), false, true).unwrap();
    assert!(!plan2.init_kmem_accounting);
}

#[test]
fn memory_unset_fields_skipped() {
    let plan = build_memory_plan(&empty_memory(), false, true).unwrap();
    assert_eq!(plan.limit, None);
    assert_eq!(plan.soft_limit, None);
    assert_eq!(plan.memswap_limit, None);
    assert_eq!(plan.kmem_limit, None);
    assert_eq!(plan.kmem_tcp_limit, None);
    assert_eq!(plan.swappiness, None);
    assert!(!plan.disable_oom_killer);
}

#[test]
fn memory_swappiness_bounds() {
    let mut mem = empty_memory();
    mem.swapiness = Some(60);
    assert_eq!(build_memory_plan(&mem, false, true).unwrap().swappiness, Some(60));
    mem.swapiness = Some(101);
    assert_eq!(build_memory_plan(&mem, false, true).unwrap().swappiness, None);
}

#[test]
fn pids_positive_limit_is_value() {
    assert_eq!(build_pids_plan(&LinuxPids { limit: 42 }).max, PidsLimit::Value(42));
}

#[test]
fn pids_nonpositive_limit_is_unlimited() {
    assert_eq!(build_pids_plan(&LinuxPids { limit: 0 }).max, PidsLimit::Max);
    assert_eq!(build_pids_plan(&LinuxPids { limit: -5 }).max, PidsLimit::Max);
}

#[test]
fn blkio_weight_devices_need_both_weights() {
    let b = LinuxBlockIo {
        weight: Some(500),
        leaf_weight: None,
        weight_device: vec![
            LinuxWeightDevice {
                blk: LinuxBlockIoDevice { major: 8, minor: 0 },
                weight: Some(10),
                leaf_weight: Some(20),
            },
            LinuxWeightDevice {
                blk: LinuxBlockIoDevice { major: 8, minor: 16 },
                weight: Some(10),
                leaf_weight: None,
            },
        ],
        throttle_read_bps_device: vec![LinuxThrottleDevice {
            blk: LinuxBlockIoDevice { major: 8, minor: 0 },
            rate: 1000,
        }],
        throttle_write_bps_device: Vec::new(),
        throttle_read_iops_device: Vec::new(),
        throttle_write_iops_device: Vec::new(),
    };
    let p = build_blkio_plan(&b);
    assert_eq!(p.weight, 500);
    assert_eq!(p.leaf_weight, 0);
    assert_eq!(p.weight_device.len(), 1);
    assert_eq!(p.weight_device[0].major, 8);
    assert_eq!(p.weight_device[0].weight, 10);
    assert_eq!(p.weight_device[0].leaf_weight, 20);
    assert_eq!(p.throttle_read_bps_device.len(), 1);
    assert_eq!(p.throttle_read_bps_device[0].rate, 1000);
}

#[test]
fn full_plan_sections_follow_populated_subspecs() {
    let mut r = empty_resources();
    r.pids = Some(LinuxPids { limit: 10 });
    r.hugepage_limits = vec![LinuxHugepageLimit { page_size: "2MB".to_string(), limit: 4096 }];
    r.network = Some(LinuxNetwork { class_id: Some(7), priorities: Vec::new() });
    let plan = build_resource_plan(&r, false, false, &Vec::new()).unwrap();
    assert!(plan.cpu.is_none());
    assert!(plan.memory.is_none());
    assert!(plan.blkio.is_none());
    assert_eq!(plan.pids.unwrap().max, PidsLimit::Value(10));
    let hp = plan.hugepages.unwrap();
    assert_eq!(hp.len(), 1);
    assert_eq!(hp[0].size, "2MB");
    assert_eq!(hp[0].limit, 4096);
    assert_eq!(plan.network.unwrap().class_id, Some(7));
    // The device list always carries the built-in allow entries.
    assert_eq!(plan.devices.len(), 6);
}

#[test]
fn full_plan_memory_error_fails_whole_application() {
    let mut r = empty_resources();
    let mut mem = empty_memory();
    mem.limit = Some(100);
    mem.swap = Some(50);
    r.memory = Some(mem);
    assert!(matches!(
        build_resource_plan(&r, false, true, &Vec::new()),
        Err(CgroupError::SwapBelowMemoryLimit)
    ));
}
