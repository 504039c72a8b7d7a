//! Resolution of controller names to paths from the two kernel-provided
//! tables: the process's cgroup table (`id:subsystems:path` triples) and the
//! mount table (space-delimited rows with a `" - "` separator between the
//! pre- and post-fields).
//!
//! Malformed rows are skipped, never fatal: partial cgroup information is
//! common and the resolver degrades gracefully.

use vstd::prelude::*;
use crate::kvmap::{kv_fold, KvMap};
use crate::strutil::{find_sep, find_sep_from, spec_split, split_char, str_eq};

verus! {

/// The alias `name=systemd` in the cgroup table stands for the `systemd`
/// controller name used by the mount table.
pub open spec fn normalize_key_spec(k: Seq<char>) -> Seq<char> {
    if k == "name=systemd"@ {
        "systemd"@
    } else {
        k
    }
}

fn normalize_key(k: &String) -> (r: String)
    ensures
        r@ == normalize_key_spec(k@),
{
    if str_eq(k.as_str(), "name=systemd") {
        "systemd".to_owned()
    } else {
        k.clone()
    }
}

/// The pairs contributed by the subsystem-name list of one cgroup-table
/// line: every name maps to the line's path field.
pub open spec fn keys_pairs(keys: Seq<Seq<char>>, path: Seq<char>) -> Seq<
    (Seq<char>, Seq<char>),
>
    decreases keys.len(),
{
    if keys.len() == 0 {
        Seq::empty()
    } else {
        keys_pairs(keys.drop_last(), path).push((normalize_key_spec(keys.last()), path))
    }
}

/// The pairs contributed by one line of the cgroup table: a line must have
/// exactly three colon-separated fields (`id:subsystems:path`); each
/// comma-separated subsystem name of field 1 maps to field 2.  Any other
/// line contributes nothing.
pub open spec fn paths_line_pairs(line: Seq<char>) -> Seq<(Seq<char>, Seq<char>)> {
    let fl = spec_split(line, ':');
    if fl.len() != 3 {
        Seq::empty()
    } else {
        keys_pairs(spec_split(fl[1], ','), fl[2])
    }
}

pub open spec fn paths_pairs(lines: Seq<Seq<char>>) -> Seq<(Seq<char>, Seq<char>)>
    decreases lines.len(),
{
    if lines.len() == 0 {
        Seq::empty()
    } else {
        paths_pairs(lines.drop_last()) + paths_line_pairs(lines.last())
    }
}

/// The controller-name to relative-path mapping read from the cgroup table.
pub open spec fn resolve_paths_spec(text: Seq<char>) -> Map<Seq<char>, Seq<char>> {
    kv_fold(paths_pairs(spec_split(text, '\n')))
}

/// A malformed cgroup-table line (anything but exactly three colon-fields)
/// is skipped and contributes nothing, whatever else it holds.
pub proof fn lemma_paths_skips_malformed_line(line: Seq<char>)
    requires
        spec_split(line, ':').len() != 3,
    ensures
        paths_line_pairs(line) == Seq::<(Seq<char>, Seq<char>)>::empty(),
{
}

/// Parses the cgroup table: each comma-separated subsystem name of a
/// well-formed `id:subsystems:path` line maps to that line's path.
pub fn resolve_paths(text: &str) -> (r: KvMap<String>)
    ensures
        r.pairs() == paths_pairs(spec_split(text@, '\n')),
        r@ == resolve_paths_spec(text@),
{
    let lines = split_char(text, '\n');
    let ghost ls = spec_split(text@, '\n');
    let mut r: KvMap<String> = KvMap::new();
    proof {
        assert(ls.take(0) =~= Seq::<Seq<char>>::empty());
        assert(r.pairs() =~= paths_pairs(ls.take(0)));
    }
    let n = lines.len();
    let mut i: usize = 0;
    while i < n
        invariant
            0 <= i <= n,
            n == lines@.len(),
            lines.deep_view() == ls,
            ls.len() == n,
            r.pairs() == paths_pairs(ls.take(i as int)),
        decreases n - i,
    {
        proof {
            assert(lines@[i as int]@ == ls[i as int]);
            assert(ls.take(i + 1).drop_last() =~= ls.take(i as int));
            assert(ls.take(i + 1).last() == ls[i as int]);
        }
        let fl = split_char(lines[i].as_str(), ':');
        if fl.len() == 3 {
            let ghost flv = spec_split(ls[i as int], ':');
            proof {
                assert(fl@[1]@ == flv[1]);
                assert(fl@[2]@ == flv[2]);
            }
            let keys = split_char(fl[1].as_str(), ',');
            let ghost ks = spec_split(flv[1], ',');
            let m = keys.len();
            let mut j: usize = 0;
            proof {
                assert(ks.take(0) =~= Seq::<Seq<char>>::empty());
                assert(r.pairs() + keys_pairs(ks.take(0), flv[2]) =~= r.pairs());
            }
            let ghost base = r.pairs();
            while j < m
                invariant
                    0 <= j <= m,
                    m == keys@.len(),
                    keys.deep_view() == ks,
                    ks.len() == m,
                    fl@.len() == 3,
                    fl@[2]@ == flv[2],
                    r.pairs() == base + keys_pairs(ks.take(j as int), flv[2]),
                decreases m - j,
            {
                proof {
                    assert(keys@[j as int]@ == ks[j as int]);
                    assert(ks.take(j + 1).drop_last() =~= ks.take(j as int));
                    assert(ks.take(j + 1).last() == ks[j as int]);
                }
                let key = normalize_key(&keys[j]);
                let path = fl[2].clone();
                r.insert(key, path);
                proof {
                    assert(r.pairs() =~= base + keys_pairs(ks.take(j + 1), flv[2]));
                }
                j = j + 1;
            }
            proof {
                assert(ks.take(m as int) =~= ks);
                assert(r.pairs() == base + paths_line_pairs(ls[i as int]));
            }
        } else {
            proof {
                assert(r.pairs() + paths_line_pairs(ls[i as int]) =~= r.pairs());
            }
        }
        proof {
            assert(r.pairs() == paths_pairs(ls.take(i + 1)));
        }
        i = i + 1;
    }
    proof {
        assert(ls.take(n as int) =~= ls);
    }
    r
}

/// The pre-separator segment and the first post-separator segment of a
/// mount-table row, split at the literal `" - "` separator; a row without
/// the separator is malformed.
pub open spec fn mount_pre_post(line: Seq<char>) -> Option<(Seq<char>, Seq<char>)> {
    match find_sep_from(line, 0) {
        None => None,
        Some(i) => {
            let after = line.skip(i + 3);
            let seg = match find_sep_from(after, 0) {
                None => after,
                Some(k) => after.take(k),
            };
            Some((line.take(i), seg))
        },
    }
}

/// The filesystem type of a mount-table row whose post-separator segment is
/// well formed (exactly three space-separated fields).
pub open spec fn mount_fstype(line: Seq<char>) -> Option<Seq<char>> {
    match mount_pre_post(line) {
        None => None,
        Some(pp) => {
            let postf = spec_split(pp.1, ' ');
            if postf.len() != 3 {
                None
            } else {
                Some(postf[0])
            }
        },
    }
}

/// The pairs contributed by the controller-option list of one mount-table
/// row: each name already known from the cgroup table maps to the row's
/// mount point.
pub open spec fn names_pairs(
    names: Seq<Seq<char>>,
    mount_point: Seq<char>,
    known: Map<Seq<char>, Seq<char>>,
) -> Seq<(Seq<char>, Seq<char>)>
    decreases names.len(),
{
    if names.len() == 0 {
        Seq::empty()
    } else {
        let rest = names_pairs(names.drop_last(), mount_point, known);
        if known.contains_key(names.last()) {
            rest.push((names.last(), mount_point))
        } else {
            rest
        }
    }
}

/// The pairs contributed by one mount-table row.  Only rows of filesystem
/// type `cgroup` or `cgroup2` count; the mount point is the fifth
/// space-separated pre-separator field, and the controller names come from
/// the comma-separated option list in the third post-separator field.
pub open spec fn mounts_line_pairs(
    line: Seq<char>,
    known: Map<Seq<char>, Seq<char>>,
) -> Seq<(Seq<char>, Seq<char>)> {
    match mount_pre_post(line) {
        None => Seq::empty(),
        Some(pp) => {
            let postf = spec_split(pp.1, ' ');
            if postf.len() != 3 {
                Seq::empty()
            } else if postf[0] != "cgroup"@ && postf[0] != "cgroup2"@ {
                Seq::empty()
            } else {
                let pref = spec_split(pp.0, ' ');
                if pref.len() < 5 {
                    Seq::empty()
                } else {
                    names_pairs(spec_split(postf[2], ','), pref[4], known)
                }
            }
        },
    }
}

pub open spec fn mounts_pairs(
    lines: Seq<Seq<char>>,
    known: Map<Seq<char>, Seq<char>>,
) -> Seq<(Seq<char>, Seq<char>)>
    decreases lines.len(),
{
    if lines.len() == 0 {
        Seq::empty()
    } else {
        mounts_pairs(lines.drop_last(), known) + mounts_line_pairs(lines.last(), known)
    }
}

/// The controller-name to mount-point mapping read from the mount table,
/// restricted to controllers already known from the cgroup table.
pub open spec fn resolve_mounts_spec(text: Seq<char>, known: Map<Seq<char>, Seq<char>>) -> Map<
    Seq<char>,
    Seq<char>,
> {
    kv_fold(mounts_pairs(spec_split(text, '\n'), known))
}

/// A mount-table row whose filesystem type is neither `cgroup` nor
/// `cgroup2` is excluded, even if its option list textually matches a known
/// controller name.
pub proof fn lemma_mounts_skip_other_fstype(line: Seq<char>, known: Map<Seq<char>, Seq<char>>)
    requires
        match mount_fstype(line) {
            Some(t) => t != "cgroup"@ && t != "cgroup2"@,
            None => true,
        },
    ensures
        mounts_line_pairs(line, known) == Seq::<(Seq<char>, Seq<char>)>::empty(),
{
}

/// Parses the mount table against the controllers already known from the
/// cgroup table.
pub fn resolve_mounts(text: &str, known: &KvMap<String>) -> (r: KvMap<String>)
    ensures
        r.pairs() == mounts_pairs(spec_split(text@, '\n'), known@),
        r@ == resolve_mounts_spec(text@, known@),
{
    let lines = split_char(text, '\n');
    let ghost ls = spec_split(text@, '\n');
    let mut r: KvMap<String> = KvMap::new();
    proof {
        assert(ls.take(0) =~= Seq::<Seq<char>>::empty());
        assert(r.pairs() =~= mounts_pairs(ls.take(0), known@));
    }
    let n = lines.len();
    let mut i: usize = 0;
    while i < n
        invariant
            0 <= i <= n,
            n == lines@.len(),
            lines.deep_view() == ls,
            ls.len() == n,
            r.pairs() == mounts_pairs(ls.take(i as int), known@),
        decreases n - i,
    {
        proof {
            assert(lines@[i as int]@ == ls[i as int]);
            assert(ls.take(i + 1).drop_last() =~= ls.take(i as int));
            assert(ls.take(i + 1).last() == ls[i as int]);
        }
        let ghost contribution = mounts_line_pairs(ls[i as int], known@);
        let ghost base = r.pairs();
        let line = &lines[i];
        let ln = line.as_str().unicode_len();
        match find_sep(line.as_str(), 0) {
            None => {
                proof {
                    assert(contribution =~= Seq::<(Seq<char>, Seq<char>)>::empty());
                    assert(base + contribution =~= base);
                }
            },
            Some(sep) => {
                let pre = line.as_str().substring_char(0, sep);
                let after = line.as_str().substring_char(sep + 3, ln);
                let an = after.unicode_len();
                let post = match find_sep(after, 0) {
                    None => after,
                    Some(k) => after.substring_char(0, k),
                };
                proof {
                    assert(after@ =~= ls[i as int].skip(sep + 3));
                    assert(pre@ =~= ls[i as int].take(sep as int));
                    match find_sep_from(after@, 0) {
                        None => {},
                        Some(k) => {
                            assert(post@ =~= after@.take(k));
                        },
                    }
                    assert(mount_pre_post(ls[i as int]) == Some((pre@, post@)));
                }
                let postf = split_char(post, ' ');
                if postf.len() != 3 {
                    proof {
                        assert(contribution =~= Seq::<(Seq<char>, Seq<char>)>::empty());
                    }
                } else {
                    proof {
                        assert(postf@[0]@ == spec_split(post@, ' ')[0]);
                        assert(postf@[2]@ == spec_split(post@, ' ')[2]);
                    }
                    let is_cgroup = str_eq(postf[0].as_str(), "cgroup") || str_eq(
                        postf[0].as_str(),
                        "cgroup2",
                    );
                    if !is_cgroup {
                        proof {
                            assert(contribution =~= Seq::<(Seq<char>, Seq<char>)>::empty());
                        }
                    } else {
                        let pref = split_char(pre, ' ');
                        if pref.len() < 5 {
                            proof {
                                assert(contribution =~= Seq::<(Seq<char>, Seq<char>)>::empty());
                            }
                        } else {
                            proof {
                                assert(pref@[4]@ == spec_split(pre@, ' ')[4]);
                            }
                            let mount_point = &pref[4];
                            let names = split_char(postf[2].as_str(), ',');
                            let ghost ns = spec_split(spec_split(post@, ' ')[2], ',');
                            let m = names.len();
                            let mut j: usize = 0;
                            proof {
                                assert(ns.take(0) =~= Seq::<Seq<char>>::empty());
                                assert(r.pairs() + names_pairs(ns.take(0), mount_point@, known@)
                                    =~= r.pairs());
                            }
                            while j < m
                                invariant
                                    0 <= j <= m,
                                    m == names@.len(),
                                    names.deep_view() == ns,
                                    ns.len() == m,
                                    r.pairs() == base + names_pairs(
                                        ns.take(j as int),
                                        mount_point@,
                                        known@,
                                    ),
                                decreases m - j,
                            {
                                proof {
                                    assert(names@[j as int]@ == ns[j as int]);
                                    assert(ns.take(j + 1).drop_last() =~= ns.take(j as int));
                                    assert(ns.take(j + 1).last() == ns[j as int]);
                                }
                                if known.contains_key(names[j].as_str()) {
                                    let key = names[j].clone();
                                    let mp = mount_point.clone();
                                    r.insert(key, mp);
                                    proof {
                                        assert(r.pairs() =~= base + names_pairs(
                                            ns.take(j + 1),
                                            mount_point@,
                                            known@,
                                        ));
                                    }
                                }
                                j = j + 1;
                            }
                            proof {
                                assert(ns.take(m as int) =~= ns);
                                assert(contribution == names_pairs(ns, mount_point@, known@));
                            }
                        }
                    }
                }
            },
        }
        proof {
            assert(r.pairs() == base + contribution);
            assert(r.pairs() == mounts_pairs(ls.take(i + 1), known@));
        }
        i = i + 1;
    }
    proof {
        assert(ls.take(n as int) =~= ls);
    }
    r
}

} // verus!
