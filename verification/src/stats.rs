//! Assembly of the normalized statistics record from controller file
//! contents.  Every numeric field defaults to zero when the underlying
//! controller file is absent or unparsable: a missing value is never an
//! error for statistics collection.

use vstd::prelude::*;
use crate::convert::ticks_to_nanos_spec;
use crate::convert::ticks_to_nanos;
use crate::kvmap::KvMap;
use crate::parse::{line_to_vec, line_to_vec_spec, lines_to_map, lines_to_map_spec};

verus! {

/// Relies on `nix::unistd::sysconf` with `CLK_TCK`: the process-wide clock
/// tick rate.  The value depends on the machine, so nothing is promised of
/// it; `effective_clock_ticks` says what is made of every outcome.
#[verifier::external_body]
pub fn sysconf_clock_ticks() -> (r: Option<i64>) {
    match nix::unistd::sysconf(nix::unistd::SysconfVar::CLK_TCK) {
        Ok(Some(v)) => Some(v),
        Ok(None) => None,
        Err(_) => None,
    }
}

/// The tick rate used for normalization: a reported positive rate is used
/// as is, anything else (unsupported or failed query) becomes zero, which
/// makes the normalization yield zero rather than fail.
pub open spec fn effective_clock_ticks_spec(raw: Option<i64>) -> u64 {
    match raw {
        Some(v) => if v > 0 {
            v as u64
        } else {
            0u64
        },
        None => 0u64,
    }
}

/// Normalizes a queried tick rate.
pub fn effective_clock_ticks(raw: Option<i64>) -> (r: u64)
    ensures
        r == effective_clock_ticks_spec(raw),
{
    match raw {
        Some(v) => if v > 0 {
            v as u64
        } else {
            0
        },
        None => 0,
    }
}

/// Queries the system's clock-tick rate and normalizes it; the result
/// depends on the machine, but every outcome is a valid rate for
/// `get_cpuacct_stats` (zero degrades the normalized fields to zero).
pub fn clock_ticks() -> u64 {
    effective_clock_ticks(sysconf_clock_ticks())
}

/// The value a `key value` map holds for a key, zero when absent.
pub open spec fn map_get_or(m: Map<Seq<char>, u64>, k: Seq<char>, d: u64) -> u64 {
    if m.contains_key(k) {
        m[k]
    } else {
        d
    }
}

fn kv_get_or(m: &KvMap<u64>, k: &str, d: u64) -> (r: u64)
    ensures
        r == map_get_or(m@, k@, d),
{
    match m.get(k) {
        Some(v) => *v,
        None => d,
    }
}

/// CPU usage in nanoseconds: total, per CPU, and the user/kernel split.
#[derive(Debug, Clone)]
pub struct CpuUsage {
    pub total_usage: u64,
    pub percpu_usage: Vec<u64>,
    pub usage_in_kernelmode: u64,
    pub usage_in_usermode: u64,
}

/// CPU bandwidth throttling counters.
#[derive(Debug, Clone, Copy, PartialEq, Eq, Structural)]
pub struct ThrottlingData {
    pub periods: u64,
    pub throttled_periods: u64,
    pub throttled_time: u64,
}

/// CPU statistics: usage and throttling.
#[derive(Debug, Clone)]
pub struct CpuStats {
    pub cpu_usage: CpuUsage,
    pub throttling_data: ThrottlingData,
}

/// One usage/max-usage/fail-count/limit quadruple of the memory controller.
#[derive(Debug, Clone, Copy, PartialEq, Eq, Structural)]
pub struct MemoryData {
    pub usage: u64,
    pub max_usage: u64,
    pub failcnt: u64,
    pub limit: u64,
}

/// Memory statistics: cache, the memory/swap/kernel usage triples, and the
/// raw `memory.stat` map.
#[derive(Debug, Clone)]
pub struct MemoryStats {
    pub cache: u64,
    pub usage: MemoryData,
    pub swap_usage: MemoryData,
    pub kernel_usage: MemoryData,
    pub use_hierarchy: bool,
    pub stats: KvMap<u64>,
}

/// Process-count statistics; a zero limit means unlimited.
#[derive(Debug, Clone, Copy, PartialEq, Eq, Structural)]
pub struct PidsStats {
    pub current: u64,
    pub limit: u64,
}

/// One block-I/O counter row: device numbers, operation kind and value.
#[derive(Debug, Clone)]
pub struct BlkioStatsEntry {
    pub major: u64,
    pub minor: u64,
    pub op: String,
    pub value: u64,
}

/// The mathematical value of a `BlkioStatsEntry`.
pub struct BlkioStatsEntryV {
    pub major: u64,
    pub minor: u64,
    pub op: Seq<char>,
    pub value: u64,
}

impl View for BlkioStatsEntry {
    type V = BlkioStatsEntryV;

    open spec fn view(&self) -> BlkioStatsEntryV {
        BlkioStatsEntryV { major: self.major, minor: self.minor, op: self.op@, value: self.value }
    }
}

impl DeepView for BlkioStatsEntry {
    type V = BlkioStatsEntryV;

    open spec fn deep_view(&self) -> BlkioStatsEntryV {
        self.view()
    }
}

/// Block-I/O statistics, one entry list per counter family.
#[derive(Debug, Clone)]
pub struct BlkioStats {
    pub io_service_bytes_recursive: Vec<BlkioStatsEntry>,
    pub io_serviced_recursive: Vec<BlkioStatsEntry>,
    pub io_queued_recursive: Vec<BlkioStatsEntry>,
    pub io_service_time_recursive: Vec<BlkioStatsEntry>,
    pub io_wait_time_recursive: Vec<BlkioStatsEntry>,
    pub io_merged_recursive: Vec<BlkioStatsEntry>,
    pub io_time_recursive: Vec<BlkioStatsEntry>,
    pub sectors_recursive: Vec<BlkioStatsEntry>,
}

/// Huge-page usage for one page size.
#[derive(Debug, Clone, Copy, PartialEq, Eq, Structural)]
pub struct HugetlbStats {
    pub usage: u64,
    pub max_usage: u64,
    pub failcnt: u64,
}

impl View for HugetlbStats {
    type V = HugetlbStats;

    open spec fn view(&self) -> HugetlbStats {
        *self
    }
}

/// The normalized statistics record.
#[derive(Debug, Clone)]
pub struct CgroupStats {
    pub cpu_stats: CpuStats,
    pub memory_stats: MemoryStats,
    pub pids_stats: PidsStats,
    pub blkio_stats: BlkioStats,
    pub hugetlb_stats: KvMap<HugetlbStats>,
}

/// The throttling counters a cpu controller stat file yields.
pub open spec fn throttling_spec(stat_text: Seq<char>) -> ThrottlingData {
    let m = lines_to_map_spec(stat_text);
    ThrottlingData {
        periods: map_get_or(m, "nr_periods"@, 0),
        throttled_periods: map_get_or(m, "nr_throttled"@, 0),
        throttled_time: map_get_or(m, "throttled_time"@, 0),
    }
}

/// Reads the throttling counters out of the cpu controller's stat text.
pub fn get_cpu_stats(stat_text: &str) -> (r: ThrottlingData)
    ensures
        r == throttling_spec(stat_text@),
{
    let h = lines_to_map(stat_text);
    ThrottlingData {
        periods: kv_get_or(&h, "nr_periods", 0),
        throttled_periods: kv_get_or(&h, "nr_throttled", 0),
        throttled_time: kv_get_or(&h, "throttled_time", 0),
    }
}

/// What the dedicated accounting controller hands over when it is present:
/// its stat text, the total usage counter, and the per-CPU usage line.
#[derive(Debug, Clone)]
pub struct CpuAcctInput {
    pub stat_text: String,
    pub usage: u64,
    pub usage_percpu_text: String,
}

/// How a CPU usage record relates to its inputs.
///
/// With the accounting controller absent, the unified hierarchy yields the
/// all-zero record, and the legacy hierarchy falls back to the
/// `user_usec`/`system_usec`/`usage_usec` keys of the generic cpu
/// controller's stat text.  With it present, user and kernel tick counts
/// from its stat text are normalized to nanoseconds at the given tick rate.
pub open spec fn cpu_usage_ok(
    r: CpuUsage,
    v2: bool,
    cpuacct: Option<CpuAcctInput>,
    cpu_stat_text: Seq<char>,
    clock_ticks: u64,
) -> bool {
    match cpuacct {
        None => if v2 {
            &&& r.total_usage == 0
            &&& r.percpu_usage@ == Seq::<u64>::empty()
            &&& r.usage_in_kernelmode == 0
            &&& r.usage_in_usermode == 0
        } else {
            let m = lines_to_map_spec(cpu_stat_text);
            &&& r.total_usage == map_get_or(m, "usage_usec"@, 0)
            &&& r.percpu_usage@ == Seq::<u64>::empty()
            &&& r.usage_in_kernelmode == map_get_or(m, "system_usec"@, 0)
            &&& r.usage_in_usermode == map_get_or(m, "user_usec"@, 0)
        },
        Some(c) => {
            let m = lines_to_map_spec(c.stat_text@);
            &&& r.total_usage == c.usage
            &&& r.percpu_usage@ == line_to_vec_spec(c.usage_percpu_text@)
            &&& r.usage_in_kernelmode == ticks_to_nanos_spec(
                map_get_or(m, "system"@, 0),
                clock_ticks,
            )
            &&& r.usage_in_usermode == ticks_to_nanos_spec(map_get_or(m, "user"@, 0), clock_ticks)
        },
    }
}

/// Assembles the CPU usage record, degrading to zeros where the accounting
/// controller is absent.
pub fn get_cpuacct_stats(
    v2: bool,
    cpuacct: Option<&CpuAcctInput>,
    cpu_stat_text: &str,
    clock_ticks: u64,
) -> (r: CpuUsage)
    ensures
        cpu_usage_ok(
            r,
            v2,
            (match cpuacct {
                Some(c) => Some(*c),
                None => None::<CpuAcctInput>,
            }),
            cpu_stat_text@,
            clock_ticks,
        ),
{
    match cpuacct {
        None => {
            if v2 {
                CpuUsage {
                    total_usage: 0,
                    percpu_usage: Vec::new(),
                    usage_in_kernelmode: 0,
                    usage_in_usermode: 0,
                }
            } else {
                let h = lines_to_map(cpu_stat_text);
                CpuUsage {
                    total_usage: kv_get_or(&h, "usage_usec", 0),
                    percpu_usage: Vec::new(),
                    usage_in_kernelmode: kv_get_or(&h, "system_usec", 0),
                    usage_in_usermode: kv_get_or(&h, "user_usec", 0),
                }
            }
        },
        Some(c) => {
            let h = lines_to_map(c.stat_text.as_str());
            let user = kv_get_or(&h, "user", 0);
            let system = kv_get_or(&h, "system", 0);
            CpuUsage {
                total_usage: c.usage,
                percpu_usage: line_to_vec(c.usage_percpu_text.as_str()),
                usage_in_kernelmode: ticks_to_nanos(system, clock_ticks),
                usage_in_usermode: ticks_to_nanos(user, clock_ticks),
            }
        },
    }
}

/// What the memory controller hands over when it is present.
#[derive(Debug, Clone)]
pub struct MemoryInput {
    pub stat_text: String,
    pub use_hierarchy: u64,
    pub usage: MemoryData,
    pub swap: MemoryData,
    pub kernel: MemoryData,
}

pub open spec fn zero_memory_data() -> MemoryData {
    MemoryData { usage: 0, max_usage: 0, failcnt: 0, limit: 0 }
}

/// How a memory statistics record relates to its input: an absent
/// controller yields the all-zero record, a present one hands its usage
/// triples through, with the cache value and the raw map read from its
/// stat text.
pub open spec fn memory_stats_ok(r: MemoryStats, m: Option<MemoryInput>) -> bool {
    match m {
        None => {
            &&& r.cache == 0
            &&& r.usage == zero_memory_data()
            &&& r.swap_usage == zero_memory_data()
            &&& r.kernel_usage == zero_memory_data()
            &&& r.use_hierarchy == false
            &&& r.stats@ == Map::<Seq<char>, u64>::empty()
        },
        Some(inp) => {
            &&& r.cache == map_get_or(lines_to_map_spec(inp.stat_text@), "cache"@, 0)
            &&& r.usage == inp.usage
            &&& r.swap_usage == inp.swap
            &&& r.kernel_usage == inp.kernel
            &&& r.use_hierarchy == (inp.use_hierarchy == 1)
            &&& r.stats@ == lines_to_map_spec(inp.stat_text@)
        },
    }
}

/// Assembles the memory statistics record.
pub fn get_memory_stats(m: Option<&MemoryInput>) -> (r: MemoryStats)
    ensures
        memory_stats_ok(
            r,
            (match m {
                Some(inp) => Some(*inp),
                None => None::<MemoryInput>,
            }),
        ),
{
    match m {
        None => MemoryStats {
            cache: 0,
            usage: MemoryData { usage: 0, max_usage: 0, failcnt: 0, limit: 0 },
            swap_usage: MemoryData { usage: 0, max_usage: 0, failcnt: 0, limit: 0 },
            kernel_usage: MemoryData { usage: 0, max_usage: 0, failcnt: 0, limit: 0 },
            use_hierarchy: false,
            stats: KvMap::new(),
        },
        Some(inp) => {
            let stats = lines_to_map(inp.stat_text.as_str());
            let cache = kv_get_or(&stats, "cache", 0);
            MemoryStats {
                cache,
                usage: inp.usage,
                swap_usage: inp.swap,
                kernel_usage: inp.kernel,
                use_hierarchy: inp.use_hierarchy == 1,
                stats,
            }
        },
    }
}

/// The pids limit as the pids controller reports it.
#[derive(Debug, Clone, Copy, PartialEq, Eq, Structural)]
pub enum PidsMaxValue {
    Max,
    Value(i64),
}

/// The pids statistics an input yields: an absent or unlimited or negative
/// limit is reported as zero.
pub open spec fn pids_stats_spec(current: u64, max: Option<PidsMaxValue>) -> PidsStats {
    PidsStats {
        current,
        limit: (match max {
            Some(PidsMaxValue::Value(v)) => if v > 0 {
                v as u64
            } else {
                0u64
            },
            _ => 0u64,
        }),
    }
}

/// Assembles the pids statistics record.
pub fn get_pids_stats(current: u64, max: Option<PidsMaxValue>) -> (r: PidsStats)
    ensures
        r == pids_stats_spec(current, max),
{
    let limit: u64 = match max {
        Some(PidsMaxValue::Value(v)) => if v > 0 {
            v as u64
        } else {
            0
        },
        _ => 0,
    };
    PidsStats { current, limit }
}

/// One row of a per-operation block-I/O counter set.
#[derive(Debug, Clone, Copy, PartialEq, Eq, Structural)]
pub struct IoServiceInput {
    pub major: u64,
    pub minor: u64,
    pub read: u64,
    pub write: u64,
    pub sync: u64,
    pub asynchronous: u64,
}

/// One row of a flat block-I/O counter set.
#[derive(Debug, Clone, Copy, PartialEq, Eq, Structural)]
pub struct BlkioDataInput {
    pub major: u64,
    pub minor: u64,
    pub data: u64,
}

/// The entry rows a per-operation counter set yields: four rows per device,
/// for the read, write, sync and async operations, in that order.
pub open spec fn ioservice_entries_spec(ss: Seq<IoServiceInput>) -> Seq<BlkioStatsEntryV>
    decreases ss.len(),
{
    if ss.len() == 0 {
        Seq::empty()
    } else {
        let s = ss.last();
        ioservice_entries_spec(ss.drop_last()) + seq![
            BlkioStatsEntryV { major: s.major, minor: s.minor, op: "Read"@, value: s.read },
            BlkioStatsEntryV { major: s.major, minor: s.minor, op: "Write"@, value: s.write },
            BlkioStatsEntryV { major: s.major, minor: s.minor, op: "Sync"@, value: s.sync },
            BlkioStatsEntryV {
                major: s.major,
                minor: s.minor,
                op: "Async"@,
                value: s.asynchronous,
            },
        ]
    }
}

/// The entry rows a flat counter set yields: one row per device, with an
/// empty operation kind.
pub open spec fn blkiodata_entries_spec(ds: Seq<BlkioDataInput>) -> Seq<BlkioStatsEntryV>
    decreases ds.len(),
{
    if ds.len() == 0 {
        Seq::empty()
    } else {
        let d = ds.last();
        blkiodata_entries_spec(ds.drop_last()).push(
            BlkioStatsEntryV { major: d.major, minor: d.minor, op: ""@, value: d.data },
        )
    }
}

/// Converts a per-operation counter set to entry rows.
pub fn get_blkio_stat_ioservice(services: &Vec<IoServiceInput>) -> (r: Vec<BlkioStatsEntry>)
    ensures
        r.deep_view() == ioservice_entries_spec(services@),
{
    let mut r: Vec<BlkioStatsEntry> = Vec::new();
    let n = services.len();
    let mut i: usize = 0;
    proof {
        assert(services@.take(0) =~= Seq::<IoServiceInput>::empty());
        assert(r.deep_view() =~= ioservice_entries_spec(services@.take(0)));
    }
    while i < n
        invariant
            0 <= i <= n,
            n == services@.len(),
            r.deep_view() == ioservice_entries_spec(services@.take(i as int)),
        decreases n - i,
    {
        proof {
            assert(services@.take(i + 1).drop_last() =~= services@.take(i as int));
            assert(services@.take(i + 1).last() == services@[i as int]);
        }
        let s = services[i];
        r.push(BlkioStatsEntry { major: s.major, minor: s.minor, op: "Read".to_owned(), value: s.read });
        r.push(BlkioStatsEntry { major: s.major, minor: s.minor, op: "Write".to_owned(), value: s.write });
        r.push(BlkioStatsEntry { major: s.major, minor: s.minor, op: "Sync".to_owned(), value: s.sync });
        r.push(
            BlkioStatsEntry {
                major: s.major,
                minor: s.minor,
                op: "Async".to_owned(),
                value: s.asynchronous,
            },
        );
        proof {
            assert(r.deep_view() =~= ioservice_entries_spec(services@.take(i + 1)));
        }
        i = i + 1;
    }
    proof {
        assert(services@.take(n as int) =~= services@);
    }
    r
}

/// Converts a flat counter set to entry rows.
pub fn get_blkio_stat_blkiodata(blkiodata: &Vec<BlkioDataInput>) -> (r: Vec<BlkioStatsEntry>)
    ensures
        r.deep_view() == blkiodata_entries_spec(blkiodata@),
{
    let mut r: Vec<BlkioStatsEntry> = Vec::new();
    let n = blkiodata.len();
    let mut i: usize = 0;
    proof {
        assert(blkiodata@.take(0) =~= Seq::<BlkioDataInput>::empty());
        assert(r.deep_view() =~= blkiodata_entries_spec(blkiodata@.take(0)));
    }
    while i < n
        invariant
            0 <= i <= n,
            n == blkiodata@.len(),
            r.deep_view() == blkiodata_entries_spec(blkiodata@.take(i as int)),
        decreases n - i,
    {
        proof {
            assert(blkiodata@.take(i + 1).drop_last() =~= blkiodata@.take(i as int));
            assert(blkiodata@.take(i + 1).last() == blkiodata@[i as int]);
        }
        let d = blkiodata[i];
        r.push(BlkioStatsEntry { major: d.major, minor: d.minor, op: "".to_owned(), value: d.data });
        proof {
            assert(r.deep_view() =~= blkiodata_entries_spec(blkiodata@.take(i + 1)));
        }
        i = i + 1;
    }
    proof {
        assert(blkiodata@.take(n as int) =~= blkiodata@);
    }
    r
}

/// What the block-I/O controller hands over: the recursive per-operation
/// counter sets, the flat time and sector counters, and the throttle
/// counter sets used as a fallback.
#[derive(Debug, Clone)]
pub struct BlkioInput {
    pub io_serviced_recursive: Vec<IoServiceInput>,
    pub io_service_bytes_recursive: Vec<IoServiceInput>,
    pub io_queued_recursive: Vec<IoServiceInput>,
    pub io_service_time_recursive: Vec<IoServiceInput>,
    pub io_wait_time_recursive: Vec<IoServiceInput>,
    pub io_merged_recursive: Vec<IoServiceInput>,
    pub time_recursive: Vec<BlkioDataInput>,
    pub sectors_recursive: Vec<BlkioDataInput>,
    pub throttle_io_service_bytes: Vec<IoServiceInput>,
    pub throttle_io_serviced: Vec<IoServiceInput>,
}

/// How the block-I/O statistics relate to their input: when the recursive
/// serviced counter set is empty (some I/O schedulers do not populate it),
/// only the two throttle counter sets are reported; otherwise the full
/// recursive counter family is.
pub open spec fn blkio_stats_ok(r: BlkioStats, b: BlkioInput) -> bool {
    if b.io_serviced_recursive@.len() == 0 {
        &&& r.io_service_bytes_recursive.deep_view() == ioservice_entries_spec(
            b.throttle_io_service_bytes@,
        )
        &&& r.io_serviced_recursive.deep_view() == ioservice_entries_spec(b.throttle_io_serviced@)
        &&& r.io_queued_recursive@.len() == 0
        &&& r.io_service_time_recursive@.len() == 0
        &&& r.io_wait_time_recursive@.len() == 0
        &&& r.io_merged_recursive@.len() == 0
        &&& r.io_time_recursive@.len() == 0
        &&& r.sectors_recursive@.len() == 0
    } else {
        &&& r.io_service_bytes_recursive.deep_view() == ioservice_entries_spec(
            b.io_service_bytes_recursive@,
        )
        &&& r.io_serviced_recursive.deep_view() == ioservice_entries_spec(
            b.io_serviced_recursive@,
        )
        &&& r.io_queued_recursive.deep_view() == ioservice_entries_spec(b.io_queued_recursive@)
        &&& r.io_service_time_recursive.deep_view() == ioservice_entries_spec(
            b.io_service_time_recursive@,
        )
        &&& r.io_wait_time_recursive.deep_view() == ioservice_entries_spec(
            b.io_wait_time_recursive@,
        )
        &&& r.io_merged_recursive.deep_view() == ioservice_entries_spec(b.io_merged_recursive@)
        &&& r.io_time_recursive.deep_view() == blkiodata_entries_spec(b.time_recursive@)
        &&& r.sectors_recursive.deep_view() == blkiodata_entries_spec(b.sectors_recursive@)
    }
}

/// Assembles the block-I/O statistics, falling back to the throttle
/// counters when the richer recursive set is empty.
pub fn get_blkio_stats(b: &BlkioInput) -> (r: BlkioStats)
    ensures
        blkio_stats_ok(r, *b),
{
    if b.io_serviced_recursive.len() == 0 {
        let r = BlkioStats {
            io_service_bytes_recursive: get_blkio_stat_ioservice(&b.throttle_io_service_bytes),
            io_serviced_recursive: get_blkio_stat_ioservice(&b.throttle_io_serviced),
            io_queued_recursive: Vec::new(),
            io_service_time_recursive: Vec::new(),
            io_wait_time_recursive: Vec::new(),
            io_merged_recursive: Vec::new(),
            io_time_recursive: Vec::new(),
            sectors_recursive: Vec::new(),
        };
        r
    } else {
        BlkioStats {
            io_service_bytes_recursive: get_blkio_stat_ioservice(&b.io_service_bytes_recursive),
            io_serviced_recursive: get_blkio_stat_ioservice(&b.io_serviced_recursive),
            io_queued_recursive: get_blkio_stat_ioservice(&b.io_queued_recursive),
            io_service_time_recursive: get_blkio_stat_ioservice(&b.io_service_time_recursive),
            io_wait_time_recursive: get_blkio_stat_ioservice(&b.io_wait_time_recursive),
            io_merged_recursive: get_blkio_stat_ioservice(&b.io_merged_recursive),
            io_time_recursive: get_blkio_stat_blkiodata(&b.time_recursive),
            sectors_recursive: get_blkio_stat_blkiodata(&b.sectors_recursive),
        }
    }
}

/// Huge-page usage for one page size, as read back from the controller.
#[derive(Debug, Clone)]
pub struct HugetlbSizeInput {
    pub size: String,
    pub usage: u64,
    pub max_usage: u64,
    pub failcnt: u64,
}

/// The pairs the huge-page statistics map holds, one per reported size.
pub open spec fn hugetlb_pairs_spec(ss: Seq<HugetlbSizeInput>) -> Seq<(Seq<char>, HugetlbStats)>
    decreases ss.len(),
{
    if ss.len() == 0 {
        Seq::empty()
    } else {
        let s = ss.last();
        hugetlb_pairs_spec(ss.drop_last()).push(
            (s.size@, HugetlbStats { usage: s.usage, max_usage: s.max_usage, failcnt: s.failcnt }),
        )
    }
}

/// Assembles the huge-page statistics map; an absent controller yields the
/// empty map.
pub fn get_hugetlb_stats(sizes: Option<&Vec<HugetlbSizeInput>>) -> (r: KvMap<HugetlbStats>)
    ensures
        (match sizes {
            Some(ss) => r.pairs() == hugetlb_pairs_spec(ss@),
            None => r.pairs() == Seq::<(Seq<char>, HugetlbStats)>::empty(),
        }),
{
    let mut r: KvMap<HugetlbStats> = KvMap::new();
    match sizes {
        None => r,
        Some(ss) => {
            let n = ss.len();
            let mut i: usize = 0;
            proof {
                assert(ss@.take(0) =~= Seq::<HugetlbSizeInput>::empty());
                assert(r.pairs() =~= hugetlb_pairs_spec(ss@.take(0)));
            }
            while i < n
                invariant
                    0 <= i <= n,
                    n == ss@.len(),
                    r.pairs() == hugetlb_pairs_spec(ss@.take(i as int)),
                decreases n - i,
            {
                proof {
                    assert(ss@.take(i + 1).drop_last() =~= ss@.take(i as int));
                    assert(ss@.take(i + 1).last() == ss@[i as int]);
                }
                let key = ss[i].size.clone();
                let value = HugetlbStats {
                    usage: ss[i].usage,
                    max_usage: ss[i].max_usage,
                    failcnt: ss[i].failcnt,
                };
                r.insert(key, value);
                i = i + 1;
            }
            proof {
                assert(ss@.take(n as int) =~= ss@);
            }
            r
        },
    }
}

} // verus!
