//! Translation of the abstract resource specification into the concrete
//! write plan for one resource application: version-specific numeric
//! remapping, the skip-unset rules, and the device access-list union.
//!
//! A field left unset or zero in the input means "do not change", not "set
//! to zero" — except pids and huge-pages, which always fully replace their
//! target once the parent record is present.

use vstd::prelude::*;
use crate::convert::{memory_swap_to_v2_spec, convert_memory_swap_to_v2_value, shares_to_v2_spec,
    convert_shares_to_v2_value};
use crate::devices::{build_device_list, device_list_spec, DeviceResource, LinuxDevice,
    LinuxDeviceCgroup};
use crate::errors::CgroupError;

verus! {

/// The CPU sub-specification: cpuset lists, shares, bandwidth quota and
/// period, and realtime runtime and period.
#[derive(Debug, Clone)]
pub struct LinuxCpu {
    pub shares: Option<u64>,
    pub quota: Option<i64>,
    pub period: Option<u64>,
    pub realtime_runtime: Option<i64>,
    pub realtime_period: Option<u64>,
    pub cpus: String,
    pub mems: String,
}

/// The memory sub-specification; `-1` means unlimited, `0` unset.
#[derive(Debug, Clone, Copy, PartialEq, Eq, Structural)]
pub struct LinuxMemory {
    pub limit: Option<i64>,
    pub reservation: Option<i64>,
    pub swap: Option<i64>,
    pub kernel: Option<i64>,
    pub kernel_tcp: Option<i64>,
    pub swapiness: Option<u64>,
    pub disable_oom_killer: Option<bool>,
}

/// The pids sub-specification; a limit at or below zero means unlimited.
#[derive(Debug, Clone, Copy, PartialEq, Eq, Structural)]
pub struct LinuxPids {
    pub limit: i64,
}

/// A device address in the block-I/O sub-specification.
#[derive(Debug, Clone, Copy, PartialEq, Eq, Structural)]
pub struct LinuxBlockIoDevice {
    pub major: i64,
    pub minor: i64,
}

#[derive(Debug, Clone, Copy, PartialEq, Eq, Structural)]
pub struct LinuxWeightDevice {
    pub blk: LinuxBlockIoDevice,
    pub weight: Option<u16>,
    pub leaf_weight: Option<u16>,
}

#[derive(Debug, Clone, Copy, PartialEq, Eq, Structural)]
pub struct LinuxThrottleDevice {
    pub blk: LinuxBlockIoDevice,
    pub rate: u64,
}

/// The block-I/O sub-specification.
#[derive(Debug, Clone)]
pub struct LinuxBlockIo {
    pub weight: Option<u16>,
    pub leaf_weight: Option<u16>,
    pub weight_device: Vec<LinuxWeightDevice>,
    pub throttle_read_bps_device: Vec<LinuxThrottleDevice>,
    pub throttle_write_bps_device: Vec<LinuxThrottleDevice>,
    pub throttle_read_iops_device: Vec<LinuxThrottleDevice>,
    pub throttle_write_iops_device: Vec<LinuxThrottleDevice>,
}

/// One huge-page reservation, keyed by page size.
#[derive(Debug, Clone)]
pub struct LinuxHugepageLimit {
    pub page_size: String,
    pub limit: u64,
}

#[derive(Debug, Clone)]
pub struct LinuxInterfacePriority {
    pub name: String,
    pub priority: u32,
}

/// The network sub-specification: class identifier and per-interface
/// priorities.
#[derive(Debug, Clone)]
pub struct LinuxNetwork {
    pub class_id: Option<u32>,
    pub priorities: Vec<LinuxInterfacePriority>,
}

/// The abstract, version-agnostic resource specification.
#[derive(Debug, Clone)]
pub struct LinuxResources {
    pub cpu: Option<LinuxCpu>,
    pub memory: Option<LinuxMemory>,
    pub pids: Option<LinuxPids>,
    pub block_io: Option<LinuxBlockIo>,
    pub hugepage_limits: Vec<LinuxHugepageLimit>,
    pub network: Option<LinuxNetwork>,
    pub devices: Vec<LinuxDeviceCgroup>,
}

pub open spec fn opt_i64(o: Option<i64>) -> i64 {
    match o {
        Some(v) => v,
        None => 0,
    }
}

pub open spec fn opt_u64(o: Option<u64>) -> u64 {
    match o {
        Some(v) => v,
        None => 0,
    }
}

pub open spec fn opt_u16(o: Option<u16>) -> u16 {
    match o {
        Some(v) => v,
        None => 0,
    }
}

pub open spec fn opt_u32(o: Option<u32>) -> u32 {
    match o {
        Some(v) => v,
        None => 0,
    }
}

/// The planned writes for the cpuset and cpu controllers.  `None` means the
/// field is left untouched.
#[derive(Debug, Clone)]
pub struct CpuPlan {
    pub cpus: Option<String>,
    pub mems: Option<String>,
    pub shares: Option<u64>,
    pub quota_and_period: Option<(i64, u64)>,
    pub rt_runtime: Option<i64>,
    pub rt_period: Option<u64>,
}

/// The shares value to write: unset or zero shares are skipped, and under
/// the unified hierarchy the value is remapped to the v2 weight scale.
pub open spec fn shares_plan_spec(shares: Option<u64>, unified: bool) -> Option<u64> {
    let s = opt_u64(shares);
    if s == 0 {
        None
    } else if unified {
        Some(shares_to_v2_spec(s))
    } else {
        Some(s)
    }
}

/// The bandwidth pair to write: skipped when both quota and period are
/// unset; when either is set, the unset one is written as zero.
pub open spec fn quota_period_spec(quota: Option<i64>, period: Option<u64>) -> Option<(i64, u64)> {
    let q = opt_i64(quota);
    let p = opt_u64(period);
    if q != 0 || p != 0 {
        Some((q, p))
    } else {
        None
    }
}

/// How a CPU plan relates to its sub-specification.
pub open spec fn cpu_plan_ok(p: CpuPlan, c: LinuxCpu, unified: bool) -> bool {
    &&& (match p.cpus {
        Some(s) => c.cpus@.len() > 0 && s@ == c.cpus@,
        None => c.cpus@.len() == 0,
    })
    &&& (match p.mems {
        Some(s) => c.mems@.len() > 0 && s@ == c.mems@,
        None => c.mems@.len() == 0,
    })
    &&& p.shares == shares_plan_spec(c.shares, unified)
    &&& p.quota_and_period == quota_period_spec(c.quota, c.period)
    &&& p.rt_runtime == (if opt_i64(c.realtime_runtime) != 0 {
        Some(opt_i64(c.realtime_runtime))
    } else {
        None::<i64>
    })
    &&& p.rt_period == (if opt_u64(c.realtime_period) != 0 {
        Some(opt_u64(c.realtime_period))
    } else {
        None::<u64>
    })
}

/// Builds the cpuset/cpu write plan for one CPU sub-specification.
pub fn build_cpu_plan(c: &LinuxCpu, unified: bool) -> (p: CpuPlan)
    ensures
        cpu_plan_ok(p, *c, unified),
{
    let cpus = if c.cpus.as_str().unicode_len() > 0 {
        Some(c.cpus.clone())
    } else {
        None
    };
    let mems = if c.mems.as_str().unicode_len() > 0 {
        Some(c.mems.clone())
    } else {
        None
    };
    let shares_in = match c.shares {
        Some(v) => v,
        None => 0,
    };
    let shares = if shares_in == 0 {
        None
    } else if unified {
        Some(convert_shares_to_v2_value(shares_in))
    } else {
        Some(shares_in)
    };
    let q = match c.quota {
        Some(v) => v,
        None => 0,
    };
    let pd = match c.period {
        Some(v) => v,
        None => 0,
    };
    let quota_and_period = if q != 0 || pd != 0 {
        Some((q, pd))
    } else {
        None
    };
    let rr = match c.realtime_runtime {
        Some(v) => v,
        None => 0,
    };
    let rt_runtime = if rr != 0 {
        Some(rr)
    } else {
        None
    };
    let rp = match c.realtime_period {
        Some(v) => v,
        None => 0,
    };
    let rt_period = if rp != 0 {
        Some(rp)
    } else {
        None
    };
    CpuPlan { cpus, mems, shares, quota_and_period, rt_runtime, rt_period }
}

/// The planned writes for the memory controller.
#[derive(Debug, Clone, Copy, PartialEq, Eq, Structural)]
pub struct MemoryPlan {
    /// On first application (not an update) the kernel-memory limit is
    /// written once to enable accounting, then reset to unlimited.
    pub init_kmem_accounting: bool,
    pub limit: Option<i64>,
    pub soft_limit: Option<i64>,
    pub memswap_limit: Option<i64>,
    pub kmem_limit: Option<i64>,
    pub kmem_tcp_limit: Option<i64>,
    pub swappiness: Option<u64>,
    pub disable_oom_killer: bool,
}

/// The memory write plan: unset and zero fields are skipped; under the
/// unified hierarchy the combined memory+swap limit is first translated to
/// the split v2 form, and its failure fails the whole plan.
pub open spec fn memory_plan_spec(m: LinuxMemory, unified: bool, update: bool) -> Result<
    MemoryPlan,
    CgroupError,
> {
    let limit = opt_i64(m.limit);
    let swap = opt_i64(m.swap);
    let conv = if unified {
        memory_swap_to_v2_spec(swap, limit)
    } else {
        Ok(swap)
    };
    match conv {
        Err(e) => Err(e),
        Ok(sw) => Ok(
            MemoryPlan {
                init_kmem_accounting: !update,
                limit: if limit != 0 {
                    Some(limit)
                } else {
                    None
                },
                soft_limit: if opt_i64(m.reservation) != 0 {
                    Some(opt_i64(m.reservation))
                } else {
                    None
                },
                memswap_limit: if sw != 0 {
                    Some(sw)
                } else {
                    None
                },
                kmem_limit: if opt_i64(m.kernel) != 0 {
                    Some(opt_i64(m.kernel))
                } else {
                    None
                },
                kmem_tcp_limit: if opt_i64(m.kernel_tcp) != 0 {
                    Some(opt_i64(m.kernel_tcp))
                } else {
                    None
                },
                swappiness: (match m.swapiness {
                    Some(v) => if v <= 100 {
                        Some(v)
                    } else {
                        None
                    },
                    None => None,
                }),
                disable_oom_killer: (match m.disable_oom_killer {
                    Some(b) => b,
                    None => false,
                }),
            },
        ),
    }
}

/// Builds the memory write plan for one memory sub-specification.
pub fn build_memory_plan(m: &LinuxMemory, unified: bool, update: bool) -> (r: Result<
    MemoryPlan,
    CgroupError,
>)
    ensures
        r == memory_plan_spec(*m, unified, update),
{
    let limit = match m.limit {
        Some(v) => v,
        None => 0,
    };
    let swap = match m.swap {
        Some(v) => v,
        None => 0,
    };
    let conv = if unified {
        convert_memory_swap_to_v2_value(swap, limit)
    } else {
        Ok(swap)
    };
    match conv {
        Err(e) => Err(e),
        Ok(sw) => {
            let reservation = match m.reservation {
                Some(v) => v,
                None => 0,
            };
            let kernel = match m.kernel {
                Some(v) => v,
                None => 0,
            };
            let kernel_tcp = match m.kernel_tcp {
                Some(v) => v,
                None => 0,
            };
            let swappiness = match m.swapiness {
                Some(v) => if v <= 100 {
                    Some(v)
                } else {
                    None
                },
                None => None,
            };
            let disable_oom_killer = match m.disable_oom_killer {
                Some(b) => b,
                None => false,
            };
            Ok(
                MemoryPlan {
                    init_kmem_accounting: !update,
                    limit: if limit != 0 {
                        Some(limit)
                    } else {
                        None
                    },
                    soft_limit: if reservation != 0 {
                        Some(reservation)
                    } else {
                        None
                    },
                    memswap_limit: if sw != 0 {
                        Some(sw)
                    } else {
                        None
                    },
                    kmem_limit: if kernel != 0 {
                        Some(kernel)
                    } else {
                        None
                    },
                    kmem_tcp_limit: if kernel_tcp != 0 {
                        Some(kernel_tcp)
                    } else {
                        None
                    },
                    swappiness,
                    disable_oom_killer,
                },
            )
        },
    }
}

/// The pids limit to write: a positive limit is written as a number,
/// anything else as the unlimited marker.  The pids target is always fully
/// replaced.
#[derive(Debug, Clone, Copy, PartialEq, Eq, Structural)]
pub enum PidsLimit {
    Max,
    Value(i64),
}

#[derive(Debug, Clone, Copy, PartialEq, Eq, Structural)]
pub struct PidsPlan {
    pub max: PidsLimit,
}

pub open spec fn pids_plan_spec(p: LinuxPids) -> PidsPlan {
    PidsPlan {
        max: if p.limit > 0 {
            PidsLimit::Value(p.limit)
        } else {
            PidsLimit::Max
        },
    }
}

/// Builds the pids write plan.
pub fn build_pids_plan(p: &LinuxPids) -> (r: PidsPlan)
    ensures
        r == pids_plan_spec(*p),
{
    PidsPlan {
        max: if p.limit > 0 {
            PidsLimit::Value(p.limit)
        } else {
            PidsLimit::Max
        },
    }
}

#[derive(Debug, Clone, Copy, PartialEq, Eq, Structural)]
pub struct BlkioDeviceWeight {
    pub major: u64,
    pub minor: u64,
    pub weight: u16,
    pub leaf_weight: u16,
}

#[derive(Debug, Clone, Copy, PartialEq, Eq, Structural)]
pub struct BlkioDeviceThrottle {
    pub major: u64,
    pub minor: u64,
    pub rate: u64,
}

/// The planned writes for the block-I/O controller; zero weights mean the
/// field is left untouched.
#[derive(Debug, Clone)]
pub struct BlkioPlan {
    pub weight: u16,
    pub leaf_weight: u16,
    pub weight_device: Vec<BlkioDeviceWeight>,
    pub throttle_read_bps_device: Vec<BlkioDeviceThrottle>,
    pub throttle_write_bps_device: Vec<BlkioDeviceThrottle>,
    pub throttle_read_iops_device: Vec<BlkioDeviceThrottle>,
    pub throttle_write_iops_device: Vec<BlkioDeviceThrottle>,
}

/// The per-device weights to write: only entries with both a weight and a
/// leaf weight are kept.
pub open spec fn weight_devices_spec(ds: Seq<LinuxWeightDevice>) -> Seq<BlkioDeviceWeight>
    decreases ds.len(),
{
    if ds.len() == 0 {
        Seq::empty()
    } else {
        let rest = weight_devices_spec(ds.drop_last());
        let d = ds.last();
        match (d.weight, d.leaf_weight) {
            (Some(w), Some(lw)) => rest.push(
                BlkioDeviceWeight {
                    major: d.blk.major as u64,
                    minor: d.blk.minor as u64,
                    weight: w,
                    leaf_weight: lw,
                },
            ),
            _ => rest,
        }
    }
}

/// The per-device throttle values to write, one per entry.
pub open spec fn throttle_devices_spec(ds: Seq<LinuxThrottleDevice>) -> Seq<BlkioDeviceThrottle>
    decreases ds.len(),
{
    if ds.len() == 0 {
        Seq::empty()
    } else {
        throttle_devices_spec(ds.drop_last()).push(
            BlkioDeviceThrottle {
                major: ds.last().blk.major as u64,
                minor: ds.last().blk.minor as u64,
                rate: ds.last().rate,
            },
        )
    }
}

fn build_weight_devices(ds: &Vec<LinuxWeightDevice>) -> (r: Vec<BlkioDeviceWeight>)
    ensures
        r@ == weight_devices_spec(ds@),
{
    let mut r: Vec<BlkioDeviceWeight> = Vec::new();
    let n = ds.len();
    let mut i: usize = 0;
    proof {
        assert(ds@.take(0) =~= Seq::<LinuxWeightDevice>::empty());
        assert(r@ =~= weight_devices_spec(ds@.take(0)));
    }
    while i < n
        invariant
            0 <= i <= n,
            n == ds@.len(),
            r@ == weight_devices_spec(ds@.take(i as int)),
        decreases n - i,
    {
        proof {
            assert(ds@.take(i + 1).drop_last() =~= ds@.take(i as int));
            assert(ds@.take(i + 1).last() == ds@[i as int]);
        }
        let d = ds[i];
        match (d.weight, d.leaf_weight) {
            (Some(w), Some(lw)) => {
                r.push(
                    BlkioDeviceWeight {
                        major: d.blk.major as u64,
                        minor: d.blk.minor as u64,
                        weight: w,
                        leaf_weight: lw,
                    },
                );
            },
            _ => {},
        }
        i = i + 1;
    }
    proof {
        assert(ds@.take(n as int) =~= ds@);
    }
    r
}

fn build_throttle_devices(ds: &Vec<LinuxThrottleDevice>) -> (r: Vec<BlkioDeviceThrottle>)
    ensures
        r@ == throttle_devices_spec(ds@),
{
    let mut r: Vec<BlkioDeviceThrottle> = Vec::new();
    let n = ds.len();
    let mut i: usize = 0;
    proof {
        assert(ds@.take(0) =~= Seq::<LinuxThrottleDevice>::empty());
        assert(r@ =~= throttle_devices_spec(ds@.take(0)));
    }
    while i < n
        invariant
            0 <= i <= n,
            n == ds@.len(),
            r@ == throttle_devices_spec(ds@.take(i as int)),
        decreases n - i,
    {
        proof {
            assert(ds@.take(i + 1).drop_last() =~= ds@.take(i as int));
            assert(ds@.take(i + 1).last() == ds@[i as int]);
        }
        let d = ds[i];
        r.push(BlkioDeviceThrottle { major: d.blk.major as u64, minor: d.blk.minor as u64, rate: d.rate });
        i = i + 1;
    }
    proof {
        assert(ds@.take(n as int) =~= ds@);
    }
    r
}

/// How a block-I/O plan relates to its sub-specification.
pub open spec fn blkio_plan_ok(p: BlkioPlan, b: LinuxBlockIo) -> bool {
    &&& p.weight == opt_u16(b.weight)
    &&& p.leaf_weight == opt_u16(b.leaf_weight)
    &&& p.weight_device@ == weight_devices_spec(b.weight_device@)
    &&& p.throttle_read_bps_device@ == throttle_devices_spec(b.throttle_read_bps_device@)
    &&& p.throttle_write_bps_device@ == throttle_devices_spec(b.throttle_write_bps_device@)
    &&& p.throttle_read_iops_device@ == throttle_devices_spec(b.throttle_read_iops_device@)
    &&& p.throttle_write_iops_device@ == throttle_devices_spec(b.throttle_write_iops_device@)
}

/// Builds the block-I/O write plan.
pub fn build_blkio_plan(b: &LinuxBlockIo) -> (p: BlkioPlan)
    ensures
        blkio_plan_ok(p, *b),
{
    BlkioPlan {
        weight: (match b.weight {
            Some(v) => v,
            None => 0,
        }),
        leaf_weight: (match b.leaf_weight {
            Some(v) => v,
            None => 0,
        }),
        weight_device: build_weight_devices(&b.weight_device),
        throttle_read_bps_device: build_throttle_devices(&b.throttle_read_bps_device),
        throttle_write_bps_device: build_throttle_devices(&b.throttle_write_bps_device),
        throttle_read_iops_device: build_throttle_devices(&b.throttle_read_iops_device),
        throttle_write_iops_device: build_throttle_devices(&b.throttle_write_iops_device),
    }
}

/// One huge-page reservation to write.
#[derive(Debug, Clone)]
pub struct HugePageEntry {
    pub size: String,
    pub limit: u64,
}

/// How the huge-page plan relates to the specification's list: the same
/// reservations, in order, fully replacing the target.
pub open spec fn hugepages_plan_ok(p: Seq<HugePageEntry>, h: Seq<LinuxHugepageLimit>) -> bool {
    &&& p.len() == h.len()
    &&& forall|i: int|
        0 <= i < h.len() ==> #[trigger] p[i].size@ == h[i].page_size@ && p[i].limit == h[i].limit
}

/// Builds the huge-page write plan.
pub fn build_hugepages_plan(h: &Vec<LinuxHugepageLimit>) -> (p: Vec<HugePageEntry>)
    ensures
        hugepages_plan_ok(p@, h@),
{
    let mut p: Vec<HugePageEntry> = Vec::new();
    let n = h.len();
    let mut i: usize = 0;
    while i < n
        invariant
            0 <= i <= n,
            n == h@.len(),
            p@.len() == i,
            forall|j: int|
                0 <= j < i ==> #[trigger] p@[j].size@ == h@[j].page_size@ && p@[j].limit
                    == h@[j].limit,
        decreases n - i,
    {
        let entry = HugePageEntry { size: h[i].page_size.clone(), limit: h[i].limit };
        p.push(entry);
        i = i + 1;
    }
    p
}

/// One per-interface network priority to write.
#[derive(Debug, Clone)]
pub struct NetworkPriorityEntry {
    pub name: String,
    pub priority: u64,
}

/// The planned writes for the network classifier and priority controllers.
#[derive(Debug, Clone)]
pub struct NetworkPlan {
    pub class_id: Option<u64>,
    pub priorities: Vec<NetworkPriorityEntry>,
}

/// How a network plan relates to its sub-specification: an unset or zero
/// class identifier is skipped; the priorities are carried over in order.
pub open spec fn network_plan_ok(p: NetworkPlan, n: LinuxNetwork) -> bool {
    &&& p.class_id == (if opt_u32(n.class_id) != 0 {
        Some(opt_u32(n.class_id) as u64)
    } else {
        None::<u64>
    })
    &&& p.priorities@.len() == n.priorities@.len()
    &&& forall|i: int|
        0 <= i < n.priorities@.len() ==> #[trigger] p.priorities@[i].name@
            == n.priorities@[i].name@ && p.priorities@[i].priority == n.priorities@[i].priority
            as u64
}

/// Builds the network write plan.
pub fn build_network_plan(n: &LinuxNetwork) -> (p: NetworkPlan)
    ensures
        network_plan_ok(p, *n),
{
    let cid = match n.class_id {
        Some(v) => v,
        None => 0,
    };
    let class_id = if cid != 0 {
        Some(cid as u64)
    } else {
        None
    };
    let mut priorities: Vec<NetworkPriorityEntry> = Vec::new();
    let m = n.priorities.len();
    let mut i: usize = 0;
    while i < m
        invariant
            0 <= i <= m,
            m == n.priorities@.len(),
            priorities@.len() == i,
            forall|j: int|
                0 <= j < i ==> #[trigger] priorities@[j].name@ == n.priorities@[j].name@
                    && priorities@[j].priority == n.priorities@[j].priority as u64,
        decreases m - i,
    {
        let entry = NetworkPriorityEntry {
            name: n.priorities[i].name.clone(),
            priority: n.priorities[i].priority as u64,
        };
        priorities.push(entry);
        i = i + 1;
    }
    NetworkPlan { class_id, priorities }
}

/// The complete write plan for one resource application.  Every populated
/// sub-plan corresponds to a populated sub-specification; the device list
/// is always written.
#[derive(Debug, Clone)]
pub struct ResourcePlan {
    pub cpu: Option<CpuPlan>,
    pub memory: Option<MemoryPlan>,
    pub pids: Option<PidsPlan>,
    pub blkio: Option<BlkioPlan>,
    pub hugepages: Option<Vec<HugePageEntry>>,
    pub network: Option<NetworkPlan>,
    pub devices: Vec<DeviceResource>,
}

/// Translates a resource specification into the write plan.  Fails exactly
/// when the unified hierarchy is active and the memory sub-specification's
/// combined memory+swap limit cannot be translated, with that error.
pub fn build_resource_plan(
    r: &LinuxResources,
    update: bool,
    unified: bool,
    default_devices: &Vec<LinuxDevice>,
) -> (res: Result<ResourcePlan, CgroupError>)
    ensures
        res is Err <==> (match r.memory {
            Some(m) => memory_plan_spec(m, unified, update) is Err,
            None => false,
        }),
        (match (res, r.memory) {
            (Err(e), Some(m)) => Err::<MemoryPlan, CgroupError>(e) == memory_plan_spec(
                m,
                unified,
                update,
            ),
            _ => true,
        }),
        (match res {
            Ok(p) => {
                &&& (match (p.cpu, r.cpu) {
                    (Some(cp), Some(c)) => cpu_plan_ok(cp, c, unified),
                    (None, None) => true,
                    _ => false,
                })
                &&& (match (p.memory, r.memory) {
                    (Some(mp), Some(m)) => Ok::<MemoryPlan, CgroupError>(mp) == memory_plan_spec(
                        m,
                        unified,
                        update,
                    ),
                    (None, None) => true,
                    _ => false,
                })
                &&& (match (p.pids, r.pids) {
                    (Some(pp), Some(pi)) => pp == pids_plan_spec(pi),
                    (None, None) => true,
                    _ => false,
                })
                &&& (match (p.blkio, r.block_io) {
                    (Some(bp), Some(b)) => blkio_plan_ok(bp, b),
                    (None, None) => true,
                    _ => false,
                })
                &&& (match p.hugepages {
                    Some(hp) => r.hugepage_limits@.len() > 0 && hugepages_plan_ok(
                        hp@,
                        r.hugepage_limits@,
                    ),
                    None => r.hugepage_limits@.len() == 0,
                })
                &&& (match (p.network, r.network) {
                    (Some(np), Some(nw)) => network_plan_ok(np, nw),
                    (None, None) => true,
                    _ => false,
                })
                &&& p.devices.deep_view() == device_list_spec(
                    r.devices.deep_view(),
                    default_devices.deep_view(),
                )
            },
            Err(_) => true,
        }),
{
    let memory = match &r.memory {
        Some(m) => match build_memory_plan(m, unified, update) {
            Ok(mp) => Some(mp),
            Err(e) => {
                return Err(e);
            },
        },
        None => None,
    };
    let cpu = match &r.cpu {
        Some(c) => Some(build_cpu_plan(c, unified)),
        None => None,
    };
    let pids = match &r.pids {
        Some(p) => Some(build_pids_plan(p)),
        None => None,
    };
    let blkio = match &r.block_io {
        Some(b) => Some(build_blkio_plan(b)),
        None => None,
    };
    let hugepages = if r.hugepage_limits.len() > 0 {
        Some(build_hugepages_plan(&r.hugepage_limits))
    } else {
        None
    };
    let network = match &r.network {
        Some(n) => Some(build_network_plan(n)),
        None => None,
    };
    let devices = build_device_list(&r.devices, default_devices);
    Ok(ResourcePlan { cpu, memory, pids, blkio, hugepages, network, devices })
}

} // verus!
