//! Snapshots of the machine's memory and the load that they show.

use crate::double;
use crate::error::MemSparkError;
use crate::text;
use crate::winapi::WinApiError;
use vstd::prelude::*;

verus! {

/// The memory load, in percent, that an optimization aims at.
pub const TARGET_MEMORY_LOAD_PERCENT: u32 = 25;

/// What the system reports about its memory at one moment; sizes are in bytes.
#[derive(Debug, Clone, Copy)]
pub struct MemorySnapshot {
    pub total_physical: u64,
    pub available_physical: u64,
    pub memory_load_percent: u32,
    pub commit_total: u64,
    pub commit_limit: u64,
    pub system_cache: u64,
    pub process_count: u32,
    pub page_file_total: u64,
    pub page_file_available: u64,
    pub virtual_total: u64,
    pub virtual_available: u64,
}

/// The fields of the global memory status that a snapshot keeps.
#[derive(Debug, Clone, Copy)]
pub struct MemoryStatus {
    pub total_physical: u64,
    pub available_physical: u64,
    pub memory_load_percent: u32,
    pub page_file_total: u64,
    pub page_file_available: u64,
    pub virtual_total: u64,
    pub virtual_available: u64,
}

/// The fields of the performance information that a snapshot keeps; sizes are in pages.
#[derive(Debug, Clone, Copy)]
pub struct PerformanceCounters {
    pub page_size: u64,
    pub commit_total: u64,
    pub commit_limit: u64,
    pub system_cache: u64,
    pub process_count: u32,
}

/// `n` cut down to the largest value that 64 bits hold.
pub open spec fn saturated(n: nat) -> nat {
    if n <= u64::MAX {
        n
    } else {
        u64::MAX as nat
    }
}

/// Multiplies and stops at the largest value.
pub fn saturating_product(a: u64, b: u64) -> (r: u64)
    ensures
        r == saturated(a as nat * b as nat),
{
    match a.checked_mul(b) {
        Some(product) => product,
        None => u64::MAX,
    }
}

/// `a - b` as a signed 64-bit number; differences out of range wrap around.
pub open spec fn signed_difference(a: u64, b: u64) -> int {
    let d = a - b;
    if d > i64::MAX {
        d - 0x1_0000_0000_0000_0000
    } else if d < i64::MIN {
        d + 0x1_0000_0000_0000_0000
    } else {
        d
    }
}

/// Subtracts as signed 64-bit numbers do.
pub fn byte_difference(a: u64, b: u64) -> (r: i64)
    ensures
        r == signed_difference(a, b),
{
    let mut d: i128 = a as i128 - b as i128;
    if d > 0x7fff_ffff_ffff_ffff {
        d = d - 0x1_0000_0000_0000_0000;
    } else if d < -0x8000_0000_0000_0000 {
        d = d + 0x1_0000_0000_0000_0000;
    }
    d as i64
}

impl MemorySnapshot {
    /// Physical memory in use.
    pub open spec fn used(self) -> nat {
        if self.available_physical <= self.total_physical {
            (self.total_physical - self.available_physical) as nat
        } else {
            0
        }
    }

    /// The share of physical memory in use, in percent, as a double precision quotient.
    pub open spec fn load(self) -> (nat, nat) {
        let total = if self.total_physical == 0 {
            1
        } else {
            self.total_physical as nat
        };
        double::double_quotient(
            double::double_of(100 * double::double_of(self.used())),
            double::double_of(total),
        )
    }

    /// The load with one decimal.
    pub open spec fn load_tenths(self) -> Seq<char> {
        text::tenths(double::rounded(10 * self.load().0, self.load().1))
    }

    /// Whether the load is at or below the target.
    pub open spec fn within_target(self) -> bool {
        self.load().0 <= TARGET_MEMORY_LOAD_PERCENT * self.load().1
    }

    /// Physical memory in use: none when more is reported available than there is.
    pub fn used_physical(&self) -> (r: u64)
        ensures
            r == self.used(),
    {
        self.total_physical.saturating_sub(self.available_physical)
    }
}

/// Whether `m` is what the system reports, with page counts turned into bytes.
pub open spec fn is_snapshot(m: MemorySnapshot, s: MemoryStatus, p: PerformanceCounters) -> bool {
    &&& m.total_physical == s.total_physical
    &&& m.available_physical == s.available_physical
    &&& m.memory_load_percent == s.memory_load_percent
    &&& m.commit_total == saturated(p.commit_total as nat * p.page_size as nat)
    &&& m.commit_limit == saturated(p.commit_limit as nat * p.page_size as nat)
    &&& m.system_cache == saturated(p.system_cache as nat * p.page_size as nat)
    &&& m.process_count == p.process_count
    &&& m.page_file_total == s.page_file_total
    &&& m.page_file_available == s.page_file_available
    &&& m.virtual_total == s.virtual_total
    &&& m.virtual_available == s.virtual_available
}

/// Builds a snapshot from what the system reports; page counts become bytes.
pub fn get_memory_snapshot(
    status: Result<MemoryStatus, WinApiError>,
    performance: Result<PerformanceCounters, WinApiError>,
) -> (r: Result<MemorySnapshot, MemSparkError>)
    ensures
        match (status, performance) {
            (Ok(s), Ok(p)) => r matches Ok(m) && is_snapshot(m, s, p),
            (Err(e), _) => r matches Err(MemSparkError::WinApi(t)) && t@ == e.described(),
            (Ok(_), Err(e)) => r matches Err(MemSparkError::WinApi(t)) && t@ == e.described(),
        },
{
    match status {
        Err(error) => Err(MemSparkError::WinApi(error.to_text())),
        Ok(s) => match performance {
            Err(error) => Err(MemSparkError::WinApi(error.to_text())),
            Ok(p) => Ok(
                MemorySnapshot {
                    total_physical: s.total_physical,
                    available_physical: s.available_physical,
                    memory_load_percent: s.memory_load_percent,
                    commit_total: saturating_product(p.commit_total, p.page_size),
                    commit_limit: saturating_product(p.commit_limit, p.page_size),
                    system_cache: saturating_product(p.system_cache, p.page_size),
                    process_count: p.process_count,
                    page_file_total: s.page_file_total,
                    page_file_available: s.page_file_available,
                    virtual_total: s.virtual_total,
                    virtual_available: s.virtual_available,
                },
            ),
        },
    }
}

/// The share of physical memory in use, in percent, as numerator and denominator.
pub fn memory_load_percent(snapshot: &MemorySnapshot) -> (r: (u128, u128))
    ensures
        (r.0 as nat, r.1 as nat) == snapshot.load(),
        r.1 >= 1,
        r.1 < 0x40_0000_0000_0000_0000_0000_0000_0000,
        r.0 < 0x400_0000_0000_0000_0000,
{
    let total: u64 = if snapshot.total_physical == 0 {
        1
    } else {
        snapshot.total_physical
    };
    let used: u128 = double::round_to_double(snapshot.used_physical() as u128);
    let scaled: u128 = double::round_to_double(100 * used);
    let whole: u128 = double::round_to_double(total as u128);
    let r: (u128, u128) = double::divide_to_double(scaled, whole);
    proof {
        if scaled >= whole * double::SIGNIFICAND_LIMIT {
            assert(r.0 <= 2 * scaled) by (nonlinear_arith)
                requires
                    r.0 * whole <= 2 * scaled,
                    whole >= 1,
            ;
        }
    }
    r
}

/// Writes the load with one decimal.
pub fn load_text(snapshot: &MemorySnapshot) -> (r: String)
    ensures
        r@ == snapshot.load_tenths(),
{
    let load: (u128, u128) = memory_load_percent(snapshot);
    text::tenths_text(double::round_quotient(10 * load.0, load.1))
}

/// Tells whether the load is at or below the target.
pub fn load_within_target(snapshot: &MemorySnapshot) -> (r: bool)
    ensures
        r == snapshot.within_target(),
{
    let load: (u128, u128) = memory_load_percent(snapshot);
    load.0 <= TARGET_MEMORY_LOAD_PERCENT as u128 * load.1
}

/// On machines with up to 81 TiB the target is met exactly when at most a quarter of the
/// physical memory is in use: rounding the load does not blur the boundary.
pub proof fn target_is_a_quarter(snapshot: MemorySnapshot)
    requires
        0 < snapshot.total_physical <= 90_071_992_547_409,
    ensures
        snapshot.within_target() <==> 4 * snapshot.used() <= snapshot.total_physical,
{
    let used = snapshot.used();
    let total = snapshot.total_physical as nat;
    let a = 100 * used;
    double::small_integers_are_exact(used);
    double::small_integers_are_exact(a);
    double::small_integers_are_exact(total);
    assert(snapshot.load() == double::double_quotient(a, total));
    if a > 0 {
        assert(a < total * double::SIGNIFICAND_LIMIT) by (nonlinear_arith)
            requires
                a <= 9007199254740900,
                total >= 1,
                double::SIGNIFICAND_LIMIT == 9007199254740992,
        ;
        double::lemma_quotient_scaled(a, total);
        let (n, d) = double::double_quotient(a, total);
        if 4 * used <= total {
            assert(d * a <= (25 * d) * total) by (nonlinear_arith)
                requires
                    a <= 25 * total,
            ;
            double::lemma_rounded_at_most(d * a, total, 25 * d);
        } else {
            assert(2 * d > total || a > 32 * total) by (nonlinear_arith)
                requires
                    d * a >= total * 4503599627370496,
                    1 <= total <= 90_071_992_547_409,
                    d >= 1,
            ;
            assert(2 * (d * a) > 2 * ((25 * d) * total) + total) by (nonlinear_arith)
                requires
                    a >= 25 * total + 1,
                    2 * d > total || a > 32 * total,
                    d >= 1,
                    total >= 1,
            ;
            double::lemma_rounded_above(d * a, total, 25 * d);
        }
    }
}

/// What is in use and what is available make up all there is; where more is reported available
/// than there is, nothing is in use.
pub proof fn used_and_available_make_up_all(snapshot: MemorySnapshot)
    ensures
        snapshot.available_physical <= snapshot.total_physical ==> snapshot.used()
            + snapshot.available_physical == snapshot.total_physical,
        snapshot.available_physical >= snapshot.total_physical ==> snapshot.used() == 0,
{
}

/// Differences of sizes are exact as far as signed numbers reach: adding one to the smaller
/// size gives the larger. Exchanging the sizes changes the sign.
pub proof fn differences_are_exact(a: u64, b: u64)
    requires
        -0x8000_0000_0000_0000 < a - b <= 0x7fff_ffff_ffff_ffff,
    ensures
        b + signed_difference(a, b) == a,
        signed_difference(b, a) == -signed_difference(a, b),
        a > b ==> signed_difference(a, b) > 0,
        a < b ==> signed_difference(a, b) < 0,
{
}

/// A product is exact as long as 64 bits hold it, and the largest value beyond.
pub proof fn products_stop_at_the_largest_value(a: u64, b: u64)
    ensures
        a * b <= u64::MAX ==> saturated(a as nat * b as nat) == a * b,
        a * b > u64::MAX ==> saturated(a as nat * b as nat) == u64::MAX,
{
}

/// A snapshot takes over what the system reports; what it reports in pages becomes bytes, cut
/// down to what 64 bits hold.
pub proof fn snapshots_are_in_bytes(m: MemorySnapshot, s: MemoryStatus, p: PerformanceCounters)
    requires
        is_snapshot(m, s, p),
    ensures
        m.total_physical == s.total_physical,
        m.available_physical == s.available_physical,
        m.memory_load_percent == s.memory_load_percent,
        m.process_count == p.process_count,
        m.page_file_total == s.page_file_total,
        m.page_file_available == s.page_file_available,
        m.virtual_total == s.virtual_total,
        m.virtual_available == s.virtual_available,
        p.commit_total * p.page_size <= u64::MAX ==> m.commit_total == p.commit_total
            * p.page_size,
        p.commit_limit * p.page_size <= u64::MAX ==> m.commit_limit == p.commit_limit
            * p.page_size,
        p.system_cache * p.page_size <= u64::MAX ==> m.system_cache == p.system_cache
            * p.page_size,
        p.commit_total * p.page_size > u64::MAX ==> m.commit_total == u64::MAX,
        p.commit_limit * p.page_size > u64::MAX ==> m.commit_limit == u64::MAX,
        p.system_cache * p.page_size > u64::MAX ==> m.system_cache == u64::MAX,
{
}

/// The load is shown to the nearest tenth of a percent of the physical memory, on machines
/// with up to 81 TiB; rounding the load itself moves it by less than a thousandth of that.
pub proof fn loads_are_shown_to_the_nearest_tenth(snapshot: MemorySnapshot) -> (shown: nat)
    requires
        0 < snapshot.total_physical <= 90_071_992_547_409,
    ensures
        snapshot.load_tenths() == text::tenths(shown),
        2000 * (2 * (shown * snapshot.total_physical)) <= 2000 * (2 * (1000 * snapshot.used()))
            + 2001 * snapshot.total_physical,
        2000 * (2 * (1000 * snapshot.used())) <= 2000 * (2 * (shown * snapshot.total_physical))
            + 2001 * snapshot.total_physical,
{
    let used = snapshot.used();
    let total = snapshot.total_physical as nat;
    let a = 100 * used;
    double::small_integers_are_exact(used);
    double::small_integers_are_exact(a);
    double::small_integers_are_exact(total);
    let (n, d) = double::double_quotient(a, total);
    let t = double::rounded(10 * n, d);
    if a > 0 {
        assert(a < total * double::SIGNIFICAND_LIMIT) by (nonlinear_arith)
            requires
                a <= 9007199254740900,
                total >= 1,
                double::SIGNIFICAND_LIMIT == 9007199254740992,
        ;
        double::lemma_quotient_scaled(a, total);
        double::rounding_is_to_the_nearest(d * a, total);
        double::rounding_is_to_the_nearest(10 * n, d);
        assert(d >= 20000) by (nonlinear_arith)
            requires
                d * a >= total * 4503599627370496,
                a <= 100 * total,
                total >= 1,
        ;
        // The load is off by at most half a unit of its scale, and the text by half a tenth.
        lemma_tenths_are_near(used, total, n, d, t);
    } else {
        assert(n == 0 && d == 1);
        double::near_fractions_round_to_the_integer(0, 1, 0);
        assert(t * total == 0) by (nonlinear_arith)
            requires
                t == 0,
        ;
    }
    t
}

/// Two roundings, one to a fine scale and one to tenths, add up to little more than the second.
proof fn lemma_tenths_are_near(used: nat, total: nat, n: nat, d: nat, t: nat)
    requires
        d >= 20000,
        2 * (n * total) <= 2 * (d * (100 * used)) + total,
        2 * (d * (100 * used)) <= 2 * (n * total) + total,
        2 * (t * d) <= 2 * (10 * n) + d,
        2 * (10 * n) <= 2 * (t * d) + d,
    ensures
        2000 * (2 * (t * total)) <= 2000 * (2 * (1000 * used)) + 2001 * total,
        2000 * (2 * (1000 * used)) <= 2000 * (2 * (t * total)) + 2001 * total,
{
    let x = t * total;
    let y = 1000 * used;
    assert(2 * ((t * d) * total) <= 2 * ((10 * n) * total) + d * total) by (nonlinear_arith)
        requires
            2 * (t * d) <= 2 * (10 * n) + d,
    ;
    assert(2 * ((10 * n) * total) <= 2 * ((t * d) * total) + d * total) by (nonlinear_arith)
        requires
            2 * (10 * n) <= 2 * (t * d) + d,
    ;
    assert((t * d) * total == d * x) by (nonlinear_arith)
        requires
            x == t * total,
    ;
    assert((10 * n) * total == 10 * (n * total)) by (nonlinear_arith);
    assert(10 * (d * (100 * used)) == d * y) by (nonlinear_arith)
        requires
            y == 1000 * used,
    ;
    assert(2 * (d * x) <= 2 * (d * y) + 10 * total + d * total);
    assert(2 * (d * y) <= 2 * (d * x) + 10 * total + d * total);
    assert(2000 * (2 * x) <= 2000 * (2 * y) + 2001 * total) by (nonlinear_arith)
        requires
            2 * (d * x) <= 2 * (d * y) + 10 * total + d * total,
            d >= 20000,
            total >= 0,
    ;
    assert(2000 * (2 * y) <= 2000 * (2 * x) + 2001 * total) by (nonlinear_arith)
        requires
            2 * (d * y) <= 2 * (d * x) + 10 * total + d * total,
            d >= 20000,
            total >= 0,
    ;
}

} // verus!
