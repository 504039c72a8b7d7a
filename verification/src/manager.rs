//! The control-group manager: derived per-controller paths, built once
//! from the two kernel tables at construction time and read-only
//! afterwards, and the entry points for resource application, statistics
//! collection and the freezer.

use vstd::prelude::*;
use crate::devices::LinuxDevice;
use crate::errors::CgroupError;
use crate::kvmap::KvMap;
use crate::resources::{build_resource_plan, LinuxResources, ResourcePlan};
use crate::stats::{get_blkio_stats, get_cpu_stats, get_cpuacct_stats, get_hugetlb_stats,
    get_memory_stats, get_pids_stats, BlkioInput, CgroupStats, CpuAcctInput, CpuStats,
    HugetlbSizeInput, MemoryInput, PidsMaxValue};
use crate::strutil::{concat2, concat3};

verus! {

/// A freezer state as a caller requests it.
#[derive(Debug, Clone, Copy, PartialEq, Eq, Structural)]
pub enum FreezerState {
    Thawed,
    Freezing,
    Frozen,
}

/// The freezer write a freeze request resolves to.
#[derive(Debug, Clone, Copy, PartialEq, Eq, Structural)]
pub enum FreezerAction {
    Freeze,
    Thaw,
}

/// The per-controller path for one controller: the controller's mount
/// point, then the process's relative path inside it (unless that is the
/// root `/`), then the container-relative path.
pub open spec fn joined_path_spec(mnt: Seq<char>, rel: Seq<char>, cpath: Seq<char>) -> Seq<char> {
    if rel == "/"@ {
        mnt + cpath
    } else {
        mnt + rel + cpath
    }
}

/// The derived per-controller paths: every controller known from the
/// cgroup table whose mount point is known maps to its joined path.
pub open spec fn derived_pairs(
    pairs: Seq<(Seq<char>, Seq<char>)>,
    mounts: Map<Seq<char>, Seq<char>>,
    cpath: Seq<char>,
) -> Seq<(Seq<char>, Seq<char>)>
    decreases pairs.len(),
{
    if pairs.len() == 0 {
        Seq::empty()
    } else {
        let rest = derived_pairs(pairs.drop_last(), mounts, cpath);
        let p = pairs.last();
        if mounts.contains_key(p.0) {
            rest.push((p.0, joined_path_spec(mounts[p.0], p.1, cpath)))
        } else {
            rest
        }
    }
}

/// The dual-hierarchy control-group manager: controller-name to absolute
/// mounted path, controller-name to mount point, controller-name to the
/// process's relative path, and the container-relative path addressed
/// under every controller.
#[derive(Debug, Clone)]
pub struct Manager {
    pub paths: KvMap<String>,
    pub mounts: KvMap<String>,
    pub rels: KvMap<String>,
    pub cpath: String,
}

impl Manager {
    /// Builds a manager for a container-relative path from the parsed
    /// cgroup and mount tables.  Fails exactly when the path is not
    /// absolute.
    pub fn new(cpath: &str, paths: KvMap<String>, mounts: KvMap<String>) -> (r: Result<
        Manager,
        CgroupError,
    >)
        ensures
            (r is Err) <==> !(cpath@.len() > 0 && cpath@[0] == '/'),
            (match r {
                Ok(m) => {
                    &&& m.cpath@ == cpath@
                    &&& m.rels.pairs() == paths.pairs()
                    &&& m.mounts.pairs() == mounts.pairs()
                    &&& m.paths.pairs() == derived_pairs(paths.pairs(), mounts@, cpath@)
                },
                Err(e) => e == CgroupError::PathNotAbsolute,
            }),
    {
        let cn = cpath.unicode_len();
        if cn == 0 || cpath.get_char(0) != '/' {
            return Err(CgroupError::PathNotAbsolute);
        }
        let mut m: KvMap<String> = KvMap::new();
        let n = paths.num_entries();
        let mut i: usize = 0;
        proof {
            assert(paths.pairs().take(0) =~= Seq::<(Seq<char>, Seq<char>)>::empty());
            assert(m.pairs() =~= derived_pairs(paths.pairs().take(0), mounts@, cpath@));
        }
        while i < n
            invariant
                0 <= i <= n,
                n == paths.pairs().len(),
                m.pairs() == derived_pairs(paths.pairs().take(i as int), mounts@, cpath@),
            decreases n - i,
        {
            proof {
                assert(paths.pairs().take(i + 1).drop_last() =~= paths.pairs().take(i as int));
                assert(paths.pairs().take(i + 1).last() == paths.pairs()[i as int]);
            }
            let entry = paths.entry_at(i);
            match mounts.get(entry.0.as_str()) {
                Some(mnt) => {
                    let key = entry.0.clone();
                    let joined = if crate::strutil::str_eq(entry.1.as_str(), "/") {
                        concat2(mnt.as_str(), cpath)
                    } else {
                        concat3(mnt.as_str(), entry.1.as_str(), cpath)
                    };
                    m.insert(key, joined);
                    proof {
                        assert(m.pairs() =~= derived_pairs(
                            paths.pairs().take(i + 1),
                            mounts@,
                            cpath@,
                        ));
                    }
                },
                None => {
                    proof {
                        assert(m.pairs() =~= derived_pairs(
                            paths.pairs().take(i + 1),
                            mounts@,
                            cpath@,
                        ));
                    }
                },
            }
            i = i + 1;
        }
        proof {
            assert(paths.pairs().take(n as int) =~= paths.pairs());
        }
        Ok(Manager { paths: m, mounts, rels: paths, cpath: cpath.to_owned() })
    }

    /// The path a caller should address a controller under: one unified
    /// path under the v2 hierarchy, the previously resolved per-controller
    /// path under v1.  Callers must not hardcode either form.
    pub fn get_cg_path(&self, cg: &str, unified: bool) -> (r: Option<String>)
        ensures
            (match r {
                Some(s) => if unified {
                    s@ == "/sys/fs/cgroup/"@ + self.cpath@
                } else {
                    self.paths@.contains_key(cg@) && s@ == self.paths@[cg@]
                },
                None => !unified && !self.paths@.contains_key(cg@),
            }),
    {
        if unified {
            Some(concat2("/sys/fs/cgroup/", self.cpath.as_str()))
        } else {
            match self.paths.get(cg) {
                Some(p) => Some(p.clone()),
                None => None,
            }
        }
    }

    /// Translates a resource specification into the write plan for this
    /// container (see `build_resource_plan` for the exact contract).
    pub fn set(
        &self,
        r: &LinuxResources,
        update: bool,
        unified: bool,
        default_devices: &Vec<LinuxDevice>,
    ) -> (res: Result<ResourcePlan, CgroupError>)
        ensures
            res is Err <==> (match r.memory {
                Some(m) => crate::resources::memory_plan_spec(m, unified, update) is Err,
                None => false,
            }),
            (match (res, r.memory) {
                (Err(e), Some(m)) => Err::<crate::resources::MemoryPlan, CgroupError>(e)
                    == crate::resources::memory_plan_spec(m, unified, update),
                _ => true,
            }),
            (match res {
                Ok(p) => {
                    &&& (match (p.cpu, r.cpu) {
                        (Some(cp), Some(c)) => crate::resources::cpu_plan_ok(cp, c, unified),
                        (None, None) => true,
                        _ => false,
                    })
                    &&& (match (p.memory, r.memory) {
                        (Some(mp), Some(m)) => Ok::<crate::resources::MemoryPlan, CgroupError>(mp)
                            == crate::resources::memory_plan_spec(m, unified, update),
                        (None, None) => true,
                        _ => false,
                    })
                    &&& (match (p.pids, r.pids) {
                        (Some(pp), Some(pi)) => pp == crate::resources::pids_plan_spec(pi),
                        (None, None) => true,
                        _ => false,
                    })
                    &&& (match (p.blkio, r.block_io) {
                        (Some(bp), Some(b)) => crate::resources::blkio_plan_ok(bp, b),
                        (None, None) => true,
                        _ => false,
                    })
                    &&& (match p.hugepages {
                        Some(hp) => r.hugepage_limits@.len() > 0
                            && crate::resources::hugepages_plan_ok(hp@, r.hugepage_limits@),
                        None => r.hugepage_limits@.len() == 0,
                    })
                    &&& (match (p.network, r.network) {
                        (Some(np), Some(nw)) => crate::resources::network_plan_ok(np, nw),
                        (None, None) => true,
                        _ => false,
                    })
                    &&& p.devices.deep_view() == crate::devices::device_list_spec(
                        r.devices.deep_view(),
                        default_devices.deep_view(),
                    )
                },
                Err(_) => true,
            }),
    {
        build_resource_plan(r, update, unified, default_devices)
    }

    /// Assembles the normalized statistics record from the controller
    /// readings; every absent controller degrades to zero values.
    pub fn get_stats(&self, input: &CgroupStatsInput) -> (r: CgroupStats)
        ensures
            r.cpu_stats.throttling_data == crate::stats::throttling_spec(input.cpu_stat_text@),
            crate::stats::cpu_usage_ok(
                r.cpu_stats.cpu_usage,
                input.unified,
                input.cpuacct,
                input.cpu_stat_text@,
                input.clock_ticks,
            ),
            crate::stats::memory_stats_ok(r.memory_stats, input.memory),
            r.pids_stats == crate::stats::pids_stats_spec(input.pids_current, input.pids_max),
            crate::stats::blkio_stats_ok(r.blkio_stats, input.blkio),
            (match input.hugetlb {
                Some(ss) => r.hugetlb_stats.pairs() == crate::stats::hugetlb_pairs_spec(ss@),
                None => r.hugetlb_stats.pairs() == Seq::<
                    (Seq<char>, crate::stats::HugetlbStats),
                >::empty(),
            }),
    {
        let cpu_usage = get_cpuacct_stats(
            input.unified,
            input.cpuacct.as_ref(),
            input.cpu_stat_text.as_str(),
            input.clock_ticks,
        );
        let throttling_data = get_cpu_stats(input.cpu_stat_text.as_str());
        let memory_stats = get_memory_stats(input.memory.as_ref());
        let pids_stats = get_pids_stats(input.pids_current, input.pids_max);
        let blkio_stats = get_blkio_stats(&input.blkio);
        let hugetlb_stats = get_hugetlb_stats(input.hugetlb.as_ref());
        CgroupStats {
            cpu_stats: CpuStats { cpu_usage, throttling_data },
            memory_stats,
            pids_stats,
            blkio_stats,
            hugetlb_stats,
        }
    }

    /// Resolves a freeze request: only the frozen and thawed states are
    /// admissible.
    pub fn freeze(&self, state: FreezerState) -> (r: Result<FreezerAction, CgroupError>)
        ensures
            r == (match state {
                FreezerState::Frozen => Ok::<FreezerAction, CgroupError>(FreezerAction::Freeze),
                FreezerState::Thawed => Ok::<FreezerAction, CgroupError>(FreezerAction::Thaw),
                FreezerState::Freezing => Err::<FreezerAction, CgroupError>(
                    CgroupError::InvalidFreezerState,
                ),
            }),
    {
        match state {
            FreezerState::Frozen => Ok(FreezerAction::Freeze),
            FreezerState::Thawed => Ok(FreezerAction::Thaw),
            FreezerState::Freezing => Err(CgroupError::InvalidFreezerState),
        }
    }
}

/// The ancestor prefixes of a container path, outermost first: one prefix
/// per path separator strictly inside the path, each cut just before its
/// separator.
pub open spec fn ancestors_upto(cpath: Seq<char>, i: int) -> Seq<Seq<char>>
    decreases i,
{
    if i <= 1 {
        Seq::empty()
    } else {
        ancestors_upto(cpath, i - 1) + (if cpath[i - 1] == '/' {
            seq![cpath.take(i - 1)]
        } else {
            Seq::<Seq<char>>::empty()
        })
    }
}

pub open spec fn cpuset_ancestors_spec(cpath: Seq<char>) -> Seq<Seq<char>> {
    ancestors_upto(cpath, cpath.len() as int)
}

/// Every listed ancestor is a proper prefix of the container path, and the
/// list is ordered by strictly growing length.
pub proof fn lemma_ancestors_prefixes(cpath: Seq<char>, i: int)
    requires
        i <= cpath.len(),
    ensures
        forall|j: int|
            0 <= j < ancestors_upto(cpath, i).len() ==> (#[trigger] ancestors_upto(cpath, i)[j]).len()
                < i && ancestors_upto(cpath, i)[j] == cpath.take(
                ancestors_upto(cpath, i)[j].len() as int,
            ),
        forall|a: int, b: int|
            0 <= a < b < ancestors_upto(cpath, i).len() ==> (#[trigger] ancestors_upto(
                cpath,
                i,
            )[a]).len() < (#[trigger] ancestors_upto(cpath, i)[b]).len(),
    decreases i,
{
    if i > 1 {
        lemma_ancestors_prefixes(cpath, i - 1);
        let prev = ancestors_upto(cpath, i - 1);
        let cur = ancestors_upto(cpath, i);
        if cpath[i - 1] == '/' {
            assert(cur =~= prev.push(cpath.take(i - 1)));
            assert(cpath.take(i - 1).len() == i - 1);
            assert forall|j: int| 0 <= j < cur.len() implies (#[trigger] cur[j]).len() < i
                && cur[j] == cpath.take(cur[j].len() as int) by {
                if j < prev.len() {
                    assert(cur[j] == prev[j]);
                } else {
                    assert(cur[j] == cpath.take(i - 1));
                }
            }
            assert forall|a: int, b: int| 0 <= a < b < cur.len() implies (#[trigger] cur[a]).len()
                < (#[trigger] cur[b]).len() by {
                assert(cur[a] == prev[a]);
                if b < prev.len() {
                    assert(cur[b] == prev[b]);
                } else {
                    assert(cur[b] == cpath.take(i - 1));
                    assert(prev[a].len() < i - 1);
                }
            }
        } else {
            assert(cur =~= prev);
        }
    }
}

/// The cpuset writes must proceed from the outermost ancestor toward the
/// container, so that every child cpu-list stays a subset of its parent's
/// at each step: in the ancestor list, each earlier path is a proper
/// prefix of each later one, and all are proper prefixes of the container
/// path.
pub proof fn lemma_cpuset_ancestors_outermost_first(cpath: Seq<char>, a: int, b: int)
    requires
        0 <= a < b < cpuset_ancestors_spec(cpath).len(),
    ensures
        cpuset_ancestors_spec(cpath)[a].len() < cpuset_ancestors_spec(cpath)[b].len(),
        cpuset_ancestors_spec(cpath)[a] == cpuset_ancestors_spec(cpath)[b].take(
            cpuset_ancestors_spec(cpath)[a].len() as int,
        ),
        cpuset_ancestors_spec(cpath)[b].len() < cpath.len(),
        cpuset_ancestors_spec(cpath)[b] == cpath.take(cpuset_ancestors_spec(cpath)[b].len() as int),
{
    lemma_ancestors_prefixes(cpath, cpath.len() as int);
    let la = cpuset_ancestors_spec(cpath)[a].len() as int;
    let lb = cpuset_ancestors_spec(cpath)[b].len() as int;
    assert(cpath.take(lb).take(la) =~= cpath.take(la));
}

impl Manager {
    /// The ordered list of ancestor group paths (relative to the cpuset
    /// mount, outermost first) whose cpu-lists must be updated before the
    /// container's own, exclusive of the root and of the container itself.
    /// An empty cpu-list is a no-op: nothing is to be written.
    pub fn update_cpuset_path(&self, cpuset_cpus: &str) -> (r: Vec<String>)
        ensures
            cpuset_cpus@.len() == 0 ==> r@.len() == 0,
            cpuset_cpus@.len() > 0 ==> r.deep_view() == cpuset_ancestors_spec(self.cpath@),
    {
        let mut r: Vec<String> = Vec::new();
        if cpuset_cpus.unicode_len() == 0 {
            return r;
        }
        let n = self.cpath.as_str().unicode_len();
        let mut i: usize = 1;
        proof {
            assert(r.deep_view() =~= ancestors_upto(self.cpath@, 1));
            if n == 0 {
                assert(r.deep_view() =~= ancestors_upto(self.cpath@, 0));
            }
        }
        while i < n
            invariant
                1 <= i <= n || (n == 0 && i == 1),
                n == self.cpath@.len(),
                r.deep_view() == ancestors_upto(self.cpath@, i as int),
            decreases n - i,
        {
            let ghost before = r.deep_view();
            if self.cpath.as_str().get_char(i) == '/' {
                let prefix = self.cpath.as_str().substring_char(0, i).to_owned();
                proof {
                    assert(prefix@ =~= self.cpath@.take(i as int));
                }
                r.push(prefix);
                proof {
                    assert(r.deep_view() =~= before + seq![self.cpath@.take(i as int)]);
                }
            } else {
                proof {
                    assert(r.deep_view() =~= before + Seq::<Seq<char>>::empty());
                }
            }
            i = i + 1;
        }
        proof {
            if n == 0 {
                assert(r.deep_view() =~= ancestors_upto(self.cpath@, 0));
            }
        }
        r
    }
}

/// Everything `get_stats` assembles from: the hierarchy mode, the clock
/// tick rate, and the readings of each controller, absent ones as `None`.
#[derive(Debug, Clone)]
pub struct CgroupStatsInput {
    pub unified: bool,
    pub clock_ticks: u64,
    pub cpu_stat_text: String,
    pub cpuacct: Option<CpuAcctInput>,
    pub memory: Option<MemoryInput>,
    pub pids_current: u64,
    pub pids_max: Option<PidsMaxValue>,
    pub blkio: BlkioInput,
    pub hugetlb: Option<Vec<HugetlbSizeInput>>,
}

/// The path of the guest's cpuset list under the resolved cpuset mount;
/// fails exactly when no cpuset controller is mounted.
pub fn get_guest_cpuset_path(mounts: &KvMap<String>) -> (r: Result<String, CgroupError>)
    ensures
        (match r {
            Ok(p) => mounts@.contains_key("cpuset"@) && p@ == mounts@["cpuset"@]
                + "/cpuset.cpus"@,
            Err(e) => !mounts@.contains_key("cpuset"@) && e == CgroupError::CpusetMountMissing,
        }),
{
    match mounts.get("cpuset") {
        Some(mnt) => Ok(concat2(mnt.as_str(), "/cpuset.cpus")),
        None => Err(CgroupError::CpusetMountMissing),
    }
}

} // verus!
