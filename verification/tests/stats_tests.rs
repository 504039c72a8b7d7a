use cgman::stats::{
    effective_clock_ticks, get_blkio_stats, get_cpu_stats, get_cpuacct_stats, get_hugetlb_stats,
    get_memory_stats, get_pids_stats, BlkioDataInput, BlkioInput, CpuAcctInput, HugetlbSizeInput,
    IoServiceInput, MemoryData, MemoryInput, PidsMaxValue,
};

fn empty_blkio() -> BlkioInput {
    BlkioInput {
        io_serviced_recursive: Vec::new(),
        io_service_bytes_recursive: Vec::new(),
        io_queued_recursive: Vec::new(),
        io_service_time_recursive: Vec::new(),
        io_wait_time_recursive: Vec::new(),
        io_merged_recursive: Vec::new(),
        time_recursive: Vec::new(),
        sectors_recursive: Vec::new(),
        throttle_io_service_bytes: Vec::new(),
        throttle_io_serviced: Vec::new(),
    }
}

#[test]
fn missing_accounting_controller_yields_all_zero_usage() {
    let usage = get_cpuacct_stats(true, None, "", 100);
    assert_eq!(usage.total_usage, 0);
    assert_eq!(usage.usage_in_usermode, 0);
    assert_eq!(usage.usage_in_kernelmode, 0);
    assert!(usage.percpu_usage.is_empty());
}

#[test]
fn legacy_fallback_reads_usec_keys_from_cpu_stat() {
    let text = "usage_usec 500\nuser_usec 300\nsystem_usec 200\n";
    let usage = get_cpuacct_stats(false, None, text, 100);
    assert_eq!(usage.total_usage, 500);
    assert_eq!(usage.usage_in_usermode, 300);
    assert_eq!(usage.usage_in_kernelmode, 200);
    assert!(usage.percpu_usage.is_empty());
}

#[test]
fn legacy_fallback_missing_keys_degrade_to_zero() {
    let usage = get_cpuacct_stats(false, None, "nr_periods 1\n", 100);
    assert_eq!(usage.total_usage, 0);
    assert_eq!(usage.usage_in_usermode, 0);
    assert_eq!(usage.usage_in_kernelmode, 0);
}

#[test]
fn accounting_controller_ticks_normalized() {
    let acct = CpuAcctInput {
        stat_text: "user 100\nsystem 50\n".to_string(),
        usage: 12345,
        usage_percpu_text: "10 20 30".to_string(),
    };
    let usage = get_cpuacct_stats(false, Some(&acct), "", 100);
    assert_eq!(usage.total_usage, 12345);
    assert_eq!(usage.usage_in_usermode, 1_000_000_000);
    assert_eq!(usage.usage_in_kernelmode, 500_000_000);
    assert_eq!(usage.percpu_usage, vec![10, 20, 30]);
}

#[test]
fn throttling_counters_read_from_stat() {
    let t = get_cpu_stats("nr_periods 4\nnr_throttled 2\nthrottled_time 99\n");
    assert_eq!(t.periods, 4);
    assert_eq!(t.throttled_periods, 2);
    assert_eq!(t.throttled_time, 99);
}

#[test]
fn throttling_missing_file_degrades_to_zero() {
    let t = get_cpu_stats("");
    assert_eq!(t.periods, 0);
    assert_eq!(t.throttled_periods, 0);
    assert_eq!(t.throttled_time, 0);
}

#[test]
fn memory_absent_controller_yields_zeros() {
    let m = get_memory_stats(None);
    assert_eq!(m.cache, 0);
    assert_eq!(m.usage, MemoryData { usage: 0, max_usage: 0, failcnt: 0, limit: 0 });
    assert!(!m.use_hierarchy);
    assert_eq!(m.stats.num_entries(), 0);
}

#[test]
fn memory_present_controller_carried_through() {
    let input = MemoryInput {
        stat_text: "cache 4096\nrss 100\n".to_string(),
        use_hierarchy: 1,
        usage: MemoryData { usage: 10, max_usage: 20, failcnt: 1, limit: 30 },
        swap: MemoryData { usage: 1, max_usage: 2, failcnt: 0, limit: 3 },
        kernel: MemoryData { usage: 4, max_usage: 5, failcnt: 0, limit: 6 },
    };
    let m = get_memory_stats(Some(&input));
    assert_eq!(m.cache, 4096);
    assert_eq!(m.usage.usage, 10);
    assert_eq!(m.swap_usage.limit, 3);
    assert_eq!(m.kernel_usage.max_usage, 5);
    assert!(m.use_hierarchy);
    assert_eq!(m.stats.get("rss"), Some(&100));
}

#[test]
fn pids_limits_normalized() {
    assert_eq!(get_pids_stats(3, Some(PidsMaxValue::Value(10))).limit, 10);
    assert_eq!(get_pids_stats(3, Some(PidsMaxValue::Max)).limit, 0);
    assert_eq!(get_pids_stats(3, None).limit, 0);
    assert_eq!(get_pids_stats(3, Some(PidsMaxValue::Value(-1))).limit, 0);
    assert_eq!(get_pids_stats(3, None).current, 3);
}

#[test]
fn blkio_rich_counters_give_four_ops_per_device() {
    let mut b = empty_blkio();
    b.io_serviced_recursive = vec![IoServiceInput {
        major: 8,
        minor: 0,
        read: 124,
        write: 104,
        sync: 104,
        asynchronous: 124,
    }];
    b.io_service_bytes_recursive = vec![IoServiceInput {
        major: 8,
        minor: 0,
        read: 1282048,
        write: 2195456,
        sync: 2195456,
        asynchronous: 1282048,
    }];
    b.time_recursive = vec![BlkioDataInput { major: 8, minor: 0, data: 6792 }];
    let s = get_blkio_stats(&b);
    assert_eq!(s.io_serviced_recursive.len(), 4);
    assert_eq!(s.io_serviced_recursive[0].op, "Read");
    assert_eq!(s.io_serviced_recursive[0].value, 124);
    assert_eq!(s.io_serviced_recursive[1].op, "Write");
    assert_eq!(s.io_serviced_recursive[2].op, "Sync");
    assert_eq!(s.io_serviced_recursive[3].op, "Async");
    assert_eq!(s.io_service_bytes_recursive[1].value, 2195456);
    assert_eq!(s.io_time_recursive.len(), 1);
    assert_eq!(s.io_time_recursive[0].op, "");
    assert_eq!(s.io_time_recursive[0].value, 6792);
}

#[test]
fn blkio_falls_back_to_throttle_counters() {
    let mut b = empty_blkio();
    b.throttle_io_serviced = vec![IoServiceInput {
        major: 8,
        minor: 0,
        read: 1,
        write: 2,
        sync: 3,
        asynchronous: 4,
    }];
    b.time_recursive = vec![BlkioDataInput { major: 8, minor: 0, data: 6792 }];
    let s = get_blkio_stats(&b);
    assert_eq!(s.io_serviced_recursive.len(), 4);
    assert_eq!(s.io_serviced_recursive[0].value, 1);
    // In the fallback only the two throttle families are reported.
    assert!(s.io_time_recursive.is_empty());
    assert!(s.sectors_recursive.is_empty());
}

#[test]
fn hugetlb_map_keyed_by_size() {
    let sizes = vec![
        HugetlbSizeInput { size: "2MB".to_string(), usage: 10, max_usage: 20, failcnt: 0 },
        HugetlbSizeInput { size: "1GB".to_string(), usage: 0, max_usage: 0, failcnt: 1 },
    ];
    let m = get_hugetlb_stats(Some(&sizes));
    assert_eq!(m.get("2MB").map(|s| s.usage), Some(10));
    assert_eq!(m.get("1GB").map(|s| s.failcnt), Some(1));
    assert_eq!(m.get("4KB"), None);
}

#[test]
fn hugetlb_absent_controller_yields_empty_map() {
    let m = get_hugetlb_stats(None);
    assert_eq!(m.num_entries(), 0);
}

#[test]
fn clock_rate_normalization() {
    assert_eq!(effective_clock_ticks(Some(100)), 100);
    assert_eq!(effective_clock_ticks(Some(0)), 0);
    assert_eq!(effective_clock_ticks(Some(-1)), 0);
    assert_eq!(effective_clock_ticks(None), 0);
}
