//! Decision logic of the OOM/memory-pressure event notifier.
//!
//! Registration validates its inputs and yields the exact paths and the
//! event-control line to write; the caller performs the opens, the write,
//! and runs the watcher loop, feeding each read outcome back through
//! [`watcher_step`].  The watcher forwards the bound container identifier
//! once per successful read while the group's control file still exists,
//! and terminates as soon as a read fails or the file is gone.

use vstd::prelude::*;
use crate::errors::CgroupError;
use crate::strutil::{concat2, dec_str, str_eq, u64_to_string};

verus! {

/// A path under the control-group directory, joined as `Path::join` joins
/// a relative name.
pub open spec fn joined_path_spec(dir: Seq<char>, name: Seq<char>) -> Seq<char> {
    if dir.len() > 0 && dir.last() == '/' {
        dir + name
    } else {
        dir + "/"@ + name
    }
}

/// Joins a relative file name onto a directory path.
pub fn join_path(dir: &str, name: &str) -> (r: String)
    ensures
        r@ == joined_path_spec(dir@, name@),
{
    let n = dir.unicode_len();
    if n > 0 && dir.get_char(n - 1) == '/' {
        concat2(dir, name)
    } else {
        let s = concat2(dir, "/");
        concat2(s.as_str(), name)
    }
}

/// One validated event registration: which file to open for watching,
/// which control file to write the registration line to, the level
/// argument, and the container identifier the watcher will forward.
#[derive(Debug, Clone)]
pub struct EventRequest {
    pub cid: String,
    pub event_file_path: String,
    pub event_control_path: String,
    pub arg: String,
}

/// How an event registration relates to its inputs.
pub open spec fn event_request_ok(
    r: EventRequest,
    cid: Seq<char>,
    cg_dir: Seq<char>,
    event_name: Seq<char>,
    arg: Seq<char>,
) -> bool {
    &&& r.cid@ == cid
    &&& r.event_file_path@ == joined_path_spec(cg_dir, event_name)
    &&& r.event_control_path@ == joined_path_spec(cg_dir, "cgroup.event_control"@)
    &&& r.arg@ == arg
}

/// Builds the registration record for one event file of a group.
pub fn register_memory_event(cid: &str, cg_dir: &str, event_name: &str, arg: &str) -> (r:
    EventRequest)
    ensures
        event_request_ok(r, cid@, cg_dir@, event_name@, arg@),
{
    EventRequest {
        cid: cid.to_owned(),
        event_file_path: join_path(cg_dir, event_name),
        event_control_path: join_path(cg_dir, "cgroup.event_control"),
        arg: arg.to_owned(),
    }
}

/// Prepares OOM monitoring for a group: fails exactly when the memory
/// controller directory is unknown (empty), and otherwise registers
/// against the group's OOM control file with an empty level argument.
pub fn notify_on_oom(cid: &str, dir: &str) -> (r: Result<EventRequest, CgroupError>)
    ensures
        dir@.len() == 0 <==> r == Err::<EventRequest, CgroupError>(
            CgroupError::MemoryControllerMissing,
        ),
        (match r {
            Ok(req) => event_request_ok(req, cid@, dir@, "memory.oom_control"@, ""@),
            Err(e) => e == CgroupError::MemoryControllerMissing,
        }),
{
    if dir.unicode_len() == 0 {
        return Err(CgroupError::MemoryControllerMissing);
    }
    Ok(register_memory_event(cid, dir, "memory.oom_control", ""))
}

/// Prepares OOM monitoring for a group (the event stream carries the
/// container identifier once per OOM occurrence).
pub fn notify_oom(cid: &str, path: &str) -> (r: Result<EventRequest, CgroupError>)
    ensures
        path@.len() == 0 <==> r == Err::<EventRequest, CgroupError>(
            CgroupError::MemoryControllerMissing,
        ),
        (match r {
            Ok(req) => event_request_ok(req, cid@, path@, "memory.oom_control"@, ""@),
            Err(e) => e == CgroupError::MemoryControllerMissing,
        }),
{
    notify_on_oom(cid, path)
}

/// Whether a string is one of the three admissible pressure levels.
pub open spec fn valid_pressure_level(level: Seq<char>) -> bool {
    level == "low"@ || level == "medium"@ || level == "critical"@
}

/// Prepares memory-pressure monitoring for a group: fails when the memory
/// controller directory is unknown, fails fast on a level other than
/// `low`, `medium` or `critical`, and otherwise registers against the
/// group's pressure-level file with the level as argument.
pub fn notify_memory_pressure(cid: &str, dir: &str, level: &str) -> (r: Result<
    EventRequest,
    CgroupError,
>)
    ensures
        r is Ok <==> dir@.len() > 0 && valid_pressure_level(level@),
        (match r {
            Ok(req) => event_request_ok(req, cid@, dir@, "memory.pressure_level"@, level@),
            Err(e) => if dir@.len() == 0 {
                e == CgroupError::MemoryControllerMissing
            } else {
                e == CgroupError::InvalidPressureLevel
            },
        }),
{
    if dir.unicode_len() == 0 {
        return Err(CgroupError::MemoryControllerMissing);
    }
    let valid = str_eq(level, "low") || str_eq(level, "medium") || str_eq(level, "critical");
    if !valid {
        return Err(CgroupError::InvalidPressureLevel);
    }
    Ok(register_memory_event(cid, dir, "memory.pressure_level", level))
}

/// The registration line for the group's generic event-control file:
/// `"<event-fd> <target-fd> <level-or-empty>"`.
pub fn event_control_line(event_fd: i32, target_fd: i32, arg: &str) -> (r: String)
    requires
        event_fd >= 0,
        target_fd >= 0,
    ensures
        r@ == dec_str(event_fd as nat) + seq![' '] + dec_str(target_fd as nat) + seq![' ']
            + arg@,
{
    let s = u64_to_string(event_fd as u64);
    let s2 = u64_to_string(target_fd as u64);
    let r = concat2(s.as_str(), " ");
    let r = concat2(r.as_str(), s2.as_str());
    let r = concat2(r.as_str(), " ");
    let r = concat2(r.as_str(), arg);
    proof {
        reveal_strlit(" ");
        assert(" "@ =~= seq![' ']);
    }
    r
}

/// What the watcher does after one read of the event descriptor.
#[derive(Debug, Clone, Copy, PartialEq, Eq, Structural)]
pub enum WatcherAction {
    /// Forward the container identifier to the consumer and keep waiting.
    Forward,
    /// The group was destroyed: swallow the event and close the stream.
    CloseSilently,
    /// The read failed: close the stream at once.
    Close,
}

/// The watcher's decision for one read outcome: a failed read closes the
/// stream immediately; a successful read closes it silently when the
/// group's control file no longer exists, and forwards the event
/// otherwise.
pub open spec fn watcher_step_spec(read_ok: bool, control_file_exists: bool) -> WatcherAction {
    if !read_ok {
        WatcherAction::Close
    } else if !control_file_exists {
        WatcherAction::CloseSilently
    } else {
        WatcherAction::Forward
    }
}

/// Decides the watcher's next action after one read.
pub fn watcher_step(read_ok: bool, control_file_exists: bool) -> (a: WatcherAction)
    ensures
        a == watcher_step_spec(read_ok, control_file_exists),
{
    if !read_ok {
        WatcherAction::Close
    } else if !control_file_exists {
        WatcherAction::CloseSilently
    } else {
        WatcherAction::Forward
    }
}

/// Once the monitored group's control file is gone, no read outcome makes
/// the watcher forward another event: the stream ends with the group.
pub proof fn lemma_no_forward_after_group_deleted(read_ok: bool)
    ensures
        watcher_step_spec(read_ok, false) != WatcherAction::Forward,
{
}

} // verus!
