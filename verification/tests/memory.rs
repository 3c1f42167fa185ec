use memspark::double::{divide_to_double, round_quotient, round_to_double};
use memspark::memory::{
    byte_difference, get_memory_snapshot, load_text, load_within_target, memory_load_percent,
    saturating_product, MemorySnapshot, MemoryStatus, PerformanceCounters,
};
use memspark::winapi::WinApiError;
use memspark::MemSparkError;

fn snapshot(total: u64, available: u64) -> MemorySnapshot {
    MemorySnapshot {
        total_physical: total,
        available_physical: available,
        memory_load_percent: 50,
        commit_total: 0,
        commit_limit: 0,
        system_cache: 0,
        process_count: 0,
        page_file_total: 0,
        page_file_available: 0,
        virtual_total: 0,
        virtual_available: 0,
    }
}

fn next(seed: &mut u64) -> u64 {
    *seed = seed.wrapping_mul(6364136223846793005).wrapping_add(1442695040888963407);
    *seed >> (*seed % 61)
}

fn float_load(s: &MemorySnapshot) -> f64 {
    s.used_physical() as f64 * 100.0 / s.total_physical.max(1) as f64
}

#[test]
fn load_agrees_with_double_precision() {
    let mut seed = 1u64;
    for _ in 0..3000 {
        let total = next(&mut seed);
        let available = next(&mut seed);
        let s = snapshot(total, available);
        assert_eq!(load_text(&s), format!("{:.1}", float_load(&s)), "{total} {available}");
        assert_eq!(load_within_target(&s), float_load(&s) <= 25.0, "{total} {available}");
        let (n, d) = memory_load_percent(&s);
        assert_eq!(n as f64 / d as f64, float_load(&s));
    }
    assert_eq!(load_text(&snapshot(8, 6)), "25.0");
    assert_eq!(load_text(&snapshot(0, 0)), "0.0");
}

#[test]
fn the_target_is_a_quarter() {
    for total in [1u64, 3, 4, 7, 1000, 17_179_869_184, 90_071_992_547_409] {
        for used in [0, total / 4, total / 4 + 1, total / 2, total] {
            if used <= total {
                let s = snapshot(total, total - used);
                let wanted = 4 * used as u128 <= total as u128;
                assert_eq!(load_within_target(&s), wanted, "{used} {total}");
            }
        }
    }
}

#[test]
fn integers_and_quotients_round_as_doubles_do() {
    let mut seed = 7u64;
    for _ in 0..3000 {
        let a = next(&mut seed);
        let b = next(&mut seed).max(1);
        assert_eq!(round_to_double(a as u128), a as f64 as u128);
        let (n, d) = divide_to_double(round_to_double(a as u128), round_to_double(b as u128));
        assert_eq!(n as f64 / d as f64, a as f64 / b as f64, "{a} {b}");
    }
    assert_eq!(round_to_double(9007199254740993), 9007199254740992);
    assert_eq!(round_to_double(9007199254740995), 9007199254740996);
    assert_eq!(round_quotient(5, 2), 2);
    assert_eq!(round_quotient(7, 2), 4);
    assert_eq!(round_quotient(8, 3), 3);
}

#[test]
fn used_memory_never_underflows() {
    assert_eq!(snapshot(10, 3).used_physical(), 7);
    assert_eq!(snapshot(3, 10).used_physical(), 0);
}

#[test]
fn differences_wrap_and_products_saturate() {
    assert_eq!(byte_difference(3, 5), -2);
    assert_eq!(byte_difference(5, 3), 2);
    assert_eq!(byte_difference(0, u64::MAX), 1);
    assert_eq!(byte_difference(u64::MAX, 0), -1);
    assert_eq!(byte_difference(1 << 63, 0), i64::MIN);
    assert_eq!(saturating_product(3, 4), 12);
    assert_eq!(saturating_product(u64::MAX, 2), u64::MAX);
}

fn status() -> MemoryStatus {
    MemoryStatus {
        total_physical: 1,
        available_physical: 2,
        memory_load_percent: 3,
        page_file_total: 4,
        page_file_available: 5,
        virtual_total: 6,
        virtual_available: 7,
    }
}

fn counters() -> PerformanceCounters {
    PerformanceCounters {
        page_size: 4096,
        commit_total: 10,
        commit_limit: u64::MAX,
        system_cache: 3,
        process_count: 99,
    }
}

fn failed(context: &'static str) -> WinApiError {
    WinApiError { context, code: 8, message: "no".to_owned() }
}

#[test]
fn snapshots_are_built_from_both_reports() {
    let s = get_memory_snapshot(Ok(status()), Ok(counters())).unwrap();
    assert_eq!((s.total_physical, s.available_physical, s.memory_load_percent), (1, 2, 3));
    assert_eq!((s.commit_total, s.commit_limit, s.system_cache), (40960, u64::MAX, 12288));
    assert_eq!((s.process_count, s.page_file_total, s.page_file_available), (99, 4, 5));
    assert_eq!((s.virtual_total, s.virtual_available), (6, 7));
    let first = get_memory_snapshot(Err(failed("A")), Err(failed("B"))).unwrap_err();
    assert_eq!(first.to_text(), "Windows API error: A failed with Windows error 8 (no)");
    assert!(matches!(
        get_memory_snapshot(Ok(status()), Err(failed("B"))),
        Err(MemSparkError::WinApi(t)) if t == "B failed with Windows error 8 (no)"
    ));
}
