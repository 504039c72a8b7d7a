//! Numeric translation between the v1 and v2 control-group value ranges.

use vstd::prelude::*;
use crate::errors::CgroupError;

verus! {

/// Nanoseconds per second, the unit statistics are normalized to.
pub const NANO_PER_SECOND: u64 = 1000000000;

/// Largest v1 `cpu.shares` value the kernel accepts (`1 << 18`).
pub const MAX_SHARES: u64 = 262144;

/// The v2 `cpu.weight` value corresponding to a v1 `cpu.shares` value:
/// `0` stays `0` ("unset"), and `[2, 262144]` is mapped affinely onto
/// `[1, 10000]` by `1 + (shares - 2) * 9999 / 262142`.  Inputs below the
/// lower endpoint map to the lower endpoint's value, inputs above the upper
/// endpoint to the upper endpoint's value, so the mapping is total and
/// monotonic.
pub open spec fn shares_to_v2_spec(shares: u64) -> u64 {
    if shares == 0 {
        0u64
    } else if shares <= 2 {
        1u64
    } else if shares >= 262144 {
        10000u64
    } else {
        (1 + (shares - 2) * 9999 / 262142) as u64
    }
}

/// Converts a v1 `cpu.shares` value to the v2 `cpu.weight` scale.
pub fn convert_shares_to_v2_value(shares: u64) -> (r: u64)
    ensures
        r == shares_to_v2_spec(shares),
{
    if shares == 0 {
        0
    } else if shares <= 2 {
        1
    } else if shares >= 262144 {
        10000
    } else {
        1 + (shares - 2) * 9999 / 262142
    }
}

/// The conversion of `cpu.shares` to `cpu.weight` is monotonic
/// non-decreasing over all share values.
pub proof fn lemma_shares_conversion_monotonic(a: u64, b: u64)
    requires
        a <= b,
    ensures
        shares_to_v2_spec(a) <= shares_to_v2_spec(b),
{
    if 2 < a < 262144 && 2 < b < 262144 {
        assert((a as int - 2) * 9999 <= (b as int - 2) * 9999);
        vstd::arithmetic::div_mod::lemma_div_is_ordered(
            (a as int - 2) * 9999,
            (b as int - 2) * 9999,
            262142,
        );
    } else if 2 < a < 262144 {
        // b is at or beyond the upper endpoint; the mid-range value is
        // bounded by the value at the endpoint.
        assert((a as int - 2) * 9999 <= 262142 * 9999);
        vstd::arithmetic::div_mod::lemma_div_is_ordered(
            (a as int - 2) * 9999,
            262142int * 9999,
            262142,
        );
        assert(262142 * 9999 / 262142 == 9999);
    }
}

/// The result of translating a combined v1 `memory+swap` limit into the
/// separate v2 swap limit, given the memory limit.  For both inputs `-1`
/// means "unlimited" and `0` means "unset".
///
/// * memory unlimited and swap unset: both are taken as unlimited, `-1`;
/// * swap unlimited or unset: passed through unchanged;
/// * otherwise the memory limit must be a positive number not above the
///   combined limit, and the swap-only limit is their difference.
pub open spec fn memory_swap_to_v2_spec(memory_swap: i64, memory: i64) -> Result<
    i64,
    CgroupError,
> {
    if memory == -1 && memory_swap == 0 {
        Ok(-1int as i64)
    } else if memory_swap == -1 || memory_swap == 0 {
        Ok(memory_swap)
    } else if memory == 0 || memory == -1 {
        Err(CgroupError::SwapWithoutMemoryLimit)
    } else if memory < 0 {
        Err(CgroupError::InvalidMemoryValue)
    } else if memory_swap < memory {
        Err(CgroupError::SwapBelowMemoryLimit)
    } else {
        Ok((memory_swap - memory) as i64)
    }
}

/// Converts a combined v1 `memory+swap` limit to the v2 swap-only limit.
pub fn convert_memory_swap_to_v2_value(memory_swap: i64, memory: i64) -> (r: Result<
    i64,
    CgroupError,
>)
    ensures
        r == memory_swap_to_v2_spec(memory_swap, memory),
{
    if memory == -1 && memory_swap == 0 {
        Ok(-1)
    } else if memory_swap == -1 || memory_swap == 0 {
        Ok(memory_swap)
    } else if memory == 0 || memory == -1 {
        Err(CgroupError::SwapWithoutMemoryLimit)
    } else if memory < 0 {
        Err(CgroupError::InvalidMemoryValue)
    } else if memory_swap < memory {
        Err(CgroupError::SwapBelowMemoryLimit)
    } else {
        Ok(memory_swap - memory)
    }
}

/// Normalizes a raw tick count to nanoseconds: `ticks * NANO_PER_SECOND /
/// clock_ticks`, computed without overflow; a zero tick rate yields zero,
/// and a quotient beyond the 64-bit range saturates.
pub open spec fn ticks_to_nanos_spec(ticks: u64, clock_ticks: u64) -> u64 {
    if clock_ticks == 0 {
        0u64
    } else if (ticks as int) * (NANO_PER_SECOND as int) / (clock_ticks as int) > u64::MAX {
        u64::MAX
    } else {
        ((ticks as int) * (NANO_PER_SECOND as int) / (clock_ticks as int)) as u64
    }
}

/// Normalizes a raw tick count to nanoseconds at the given tick rate.
pub fn ticks_to_nanos(ticks: u64, clock_ticks: u64) -> (r: u64)
    ensures
        r == ticks_to_nanos_spec(ticks, clock_ticks),
{
    if clock_ticks == 0 {
        return 0;
    }
    assert((ticks as int) * (NANO_PER_SECOND as int) <= (u64::MAX as int) * (
    NANO_PER_SECOND as int)) by (nonlinear_arith)
        requires
            ticks <= u64::MAX,
    ;
    let wide: u128 = (ticks as u128) * (NANO_PER_SECOND as u128) / (clock_ticks as u128);
    if wide > u64::MAX as u128 {
        u64::MAX
    } else {
        wide as u64
    }
}

} // verus!
