use cgman::convert::{convert_memory_swap_to_v2_value, convert_shares_to_v2_value, ticks_to_nanos};
use cgman::errors::CgroupError;

#[test]
fn shares_zero_maps_to_zero() {
    assert_eq!(convert_shares_to_v2_value(0), 0);
}

#[test]
fn shares_lower_endpoint() {
    assert_eq!(convert_shares_to_v2_value(2), 1);
}

#[test]
fn shares_upper_endpoint() {
    assert_eq!(convert_shares_to_v2_value(262144), 10000);
}

#[test]
fn shares_default_1024() {
    // 1 + (1022 * 9999) / 262142 = 1 + 38 = 39
    assert_eq!(convert_shares_to_v2_value(1024), 39);
}

#[test]
fn shares_monotonic_samples() {
    let mut last = 0;
    for s in [1u64, 2, 3, 10, 512, 1024, 4096, 100000, 262143, 262144, 300000, u64::MAX] {
        let v = convert_shares_to_v2_value(s);
        assert!(v >= last, "conversion decreased at {}", s);
        last = v;
    }
}

#[test]
fn memory_swap_unlimited_memory_unset_swap() {
    assert_eq!(convert_memory_swap_to_v2_value(0, -1), Ok(-1));
}

#[test]
fn memory_swap_unlimited_swap_passthrough() {
    assert_eq!(convert_memory_swap_to_v2_value(-1, 100), Ok(-1));
}

#[test]
fn memory_swap_below_memory_fails() {
    assert_eq!(
        convert_memory_swap_to_v2_value(50, 100),
        Err(CgroupError::SwapBelowMemoryLimit)
    );
}

#[test]
fn memory_swap_difference() {
    assert_eq!(convert_memory_swap_to_v2_value(150, 100), Ok(50));
}

#[test]
fn memory_swap_without_memory_fails() {
    assert_eq!(
        convert_memory_swap_to_v2_value(150, 0),
        Err(CgroupError::SwapWithoutMemoryLimit)
    );
    assert_eq!(
        convert_memory_swap_to_v2_value(150, -1),
        Err(CgroupError::SwapWithoutMemoryLimit)
    );
}

#[test]
fn memory_swap_negative_memory_fails() {
    assert_eq!(
        convert_memory_swap_to_v2_value(150, -2),
        Err(CgroupError::InvalidMemoryValue)
    );
}

#[test]
fn memory_swap_unset_passthrough() {
    assert_eq!(convert_memory_swap_to_v2_value(0, 100), Ok(0));
}

#[test]
fn ticks_normalization_exact() {
    // 100 ticks at 100 ticks/s is one second, i.e. 1e9 ns.
    assert_eq!(ticks_to_nanos(100, 100), 1_000_000_000);
    assert_eq!(ticks_to_nanos(250, 100), 2_500_000_000);
}

#[test]
fn ticks_zero_rate_degrades_to_zero() {
    assert_eq!(ticks_to_nanos(12345, 0), 0);
}

#[test]
fn ticks_large_values_saturate() {
    assert_eq!(ticks_to_nanos(u64::MAX, 1), u64::MAX);
}
