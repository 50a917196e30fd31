//! SD clock tuning.
//!
//! The controller divides its base clock twice: first by a power-of-two
//! prescaler (the frequency-select field), then by a linear divisor.  Given
//! a base clock and a target ceiling, the tuner picks the smallest prescaler
//! that can meet the ceiling together with the largest divisor, then the
//! smallest divisor that meets it with that prescaler.  The surrounding
//! runner programs the chosen fields only while the controller reports its
//! SD clock stable; the choice itself is pure and verified here.

use vstd::prelude::*;

verus! {

/// The largest linear divisor the divisor field can express.
pub const DVS_LIMIT: u32 = 16;

/// The largest prescaler the frequency-select field can express.
pub const SD_CLK_FS_LIMIT: u32 = 128;

/// A divider configuration derived from a base clock and a target rate.
/// Superseded plans are discarded whole, never merged.
#[derive(Clone, Copy, Debug, PartialEq, Eq, Structural)]
pub struct ClockPlan {
    /// The base clock the dividers divide, in Hz.
    pub base_hz: u32,
    /// The chosen prescaler: a power of two in 1..=128.
    pub fs_divider: u32,
    /// The chosen linear divisor, in 1..=16.
    pub dvs_divider: u32,
    /// The resulting SD clock, in kHz, kept for diagnostics.
    pub resulting_khz: u32,
}

/// The values the prescaler can take: the powers of two up to 128.
pub open spec fn valid_fs_divider(fs: u32) -> bool {
    fs == 1 || fs == 2 || fs == 4 || fs == 8 || fs == 16 || fs == 32 || fs == 64 || fs == 128
}

/// Whether dividing `base_hz` by the prescaler `fs` and divisor `dvs`
/// meets the `target_hz` ceiling.
pub open spec fn rate_met(base_hz: u32, fs: u32, dvs: u32, target_hz: u32) -> bool {
    base_hz as int / (fs * dvs) <= target_hz
}

/// A plan is well formed when its dividers are in range and its recorded
/// rate is the divided base clock expressed in kHz.
pub open spec fn plan_wf(plan: ClockPlan) -> bool {
    &&& valid_fs_divider(plan.fs_divider)
    &&& 1 <= plan.dvs_divider <= DVS_LIMIT
    &&& plan.resulting_khz == plan.base_hz as int / (1000 * plan.fs_divider * plan.dvs_divider)
}

/// Derives the divider plan for `base_hz` against the ceiling `target_hz`.
///
/// The prescaler is the smallest power of two that meets the ceiling even
/// with the largest divisor (or 128 when none does); the divisor is then
/// the smallest that meets the ceiling with that prescaler (or 16 when none
/// does).  Both minimality claims are stated below over every admissible
/// smaller value.
pub fn make_clock_plan(base_hz: u32, target_hz: u32) -> (plan: ClockPlan)
    ensures
        plan.base_hz == base_hz,
        plan_wf(plan),
        plan.fs_divider < SD_CLK_FS_LIMIT ==> rate_met(
            base_hz,
            plan.fs_divider,
            DVS_LIMIT,
            target_hz,
        ),
        forall|f: u32|
            valid_fs_divider(f) && f < plan.fs_divider ==> !rate_met(
                base_hz,
                f,
                DVS_LIMIT,
                target_hz,
            ),
        plan.dvs_divider < DVS_LIMIT ==> rate_met(
            base_hz,
            plan.fs_divider,
            plan.dvs_divider,
            target_hz,
        ),
        forall|d: u32|
            1 <= d < plan.dvs_divider ==> !rate_met(base_hz, plan.fs_divider, d, target_hz),
{
    let mut sd_clk_fs: u32 = 1;
    while (base_hz / (sd_clk_fs * DVS_LIMIT) > target_hz) && (sd_clk_fs < SD_CLK_FS_LIMIT)
        invariant
            valid_fs_divider(sd_clk_fs),
            forall|f: u32|
                valid_fs_divider(f) && f < sd_clk_fs ==> !rate_met(
                    base_hz,
                    f,
                    DVS_LIMIT,
                    target_hz,
                ),
        decreases SD_CLK_FS_LIMIT - sd_clk_fs,
    {
        let ghost prev = sd_clk_fs;
        sd_clk_fs = sd_clk_fs * 2;
        assert forall|f: u32| valid_fs_divider(f) && f < sd_clk_fs implies !rate_met(
            base_hz,
            f,
            DVS_LIMIT,
            target_hz,
        ) by {
            if f >= prev {
                assert(f == prev);
            }
        }
    }

    let mut dvs: u32 = 1;
    while (base_hz / (sd_clk_fs * dvs) > target_hz) && (dvs < DVS_LIMIT)
        invariant
            valid_fs_divider(sd_clk_fs),
            1 <= dvs <= DVS_LIMIT,
            forall|d: u32| 1 <= d < dvs ==> !rate_met(base_hz, sd_clk_fs, d, target_hz),
        decreases DVS_LIMIT - dvs,
    {
        dvs = dvs + 1;
    }

    proof {
        assert(1 <= sd_clk_fs <= 128);
        assert(1000 <= 1000 * sd_clk_fs * dvs <= 2_048_000) by (nonlinear_arith)
            requires
                1 <= sd_clk_fs <= 128,
                1 <= dvs <= 16,
        ;
    }
    let resulting_khz = base_hz / (1000 * sd_clk_fs * dvs);
    ClockPlan { base_hz, fs_divider: sd_clk_fs, dvs_divider: dvs, resulting_khz }
}

/// The register encoding of a plan's dividers: the frequency-select field
/// holds half the prescaler (0 meaning a prescaler of 1) and the divisor
/// field holds the divisor less one.
pub fn divider_fields(plan: &ClockPlan) -> (fields: (u32, u32))
    requires
        valid_fs_divider(plan.fs_divider),
        1 <= plan.dvs_divider <= DVS_LIMIT,
    ensures
        fields.0 == plan.fs_divider as int / 2,
        fields.1 == plan.dvs_divider - 1,
{
    let fs_field = plan.fs_divider >> 1;
    proof {
        let fs = plan.fs_divider;
        assert(fs >> 1 == fs / 2) by (bit_vector);
    }
    (fs_field, plan.dvs_divider - 1)
}

/// The base clock the divider plan starts from, computed from the two
/// clock-tree register fields that determine it: the peripheral divider
/// field (its programmed value, one less than the divider applied) and the
/// PLL2 fractional-divider word, whose low six bits scale the 528 MHz rail
/// by 18 over the fraction.
pub fn base_clock_hz(podf: u32, pfd_frac: u32) -> (hz: u32)
    requires
        podf <= 7,
        pfd_frac & 0x3F >= 6,
    ensures
        hz == 528_000_000u32 * 3 / ((pfd_frac & 0x3F) as int / 6) / (podf + 1),
{
    let divider = podf + 1;
    let fq = pfd_frac & 0x3F;
    (528_000_000u32 * 3) / (fq / 6) / divider
}

} // verus!
