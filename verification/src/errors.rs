use vstd::prelude::*;

verus! {

/// Errors surfaced by the resource-control layer.
///
/// Configuration and validation errors are always surfaced to the caller and
/// never retried; a missing controller is not an error for statistics
/// collection (it degrades to zero values) and is therefore not represented
/// here.
#[derive(Debug, Clone, Copy, PartialEq, Eq, Structural)]
pub enum CgroupError {
    /// The container path handed to the manager does not start with `/`.
    PathNotAbsolute,
    /// A swap limit was requested without a usable memory limit.
    SwapWithoutMemoryLimit,
    /// The memory limit is negative (and not the `-1` "unlimited" marker).
    InvalidMemoryValue,
    /// The combined memory+swap limit lies below the memory limit.
    SwapBelowMemoryLimit,
    /// The memory controller directory for an event registration is unknown.
    MemoryControllerMissing,
    /// A memory-pressure level other than `low`, `medium` or `critical`.
    InvalidPressureLevel,
    /// No cpuset controller is present in the mount table.
    CpusetMountMissing,
    /// A freezer state that is neither frozen nor thawed.
    InvalidFreezerState,
}

impl CgroupError {
    /// A human-readable description, for callers that report errors.
    pub fn describe(&self) -> &'static str {
        match self {
            CgroupError::PathNotAbsolute => "container cgroup path must be absolute",
            CgroupError::SwapWithoutMemoryLimit => {
                "unable to set swap limit without memory limit"
            },
            CgroupError::InvalidMemoryValue => "invalid memory value",
            CgroupError::SwapBelowMemoryLimit => {
                "memory+swap limit should be >= memory limit"
            },
            CgroupError::MemoryControllerMissing => "memory controller missing",
            CgroupError::InvalidPressureLevel => "invalid pressure level",
            CgroupError::CpusetMountMissing => "no cpuset cgroup mount",
            CgroupError::InvalidFreezerState => "invalid freezer state",
        }
    }
}

} // verus!
