//! Bus timing: the values of CR2.FREQ, TRISE and CCR for a target SCL
//! frequency and an APB1 clock.

use vstd::prelude::*;

verus! {

/// Highest SCL frequency that can be asked for, in Hz.
pub const MAX_BUS_FREQ: u32 = 1_000_000;

/// Highest SCL frequency of standard mode, in Hz; above it the bus runs in fast mode.
pub const STANDARD_MODE_MAX: u32 = 100_000;

/// Lowest APB1 clock, in MHz, at which the peripheral works.
pub const MIN_FREQ_RANGE: u32 = 2;

/// Highest APB1 clock, in MHz, at which the peripheral works.
pub const MAX_FREQ_RANGE: u32 = 50;

/// Lowest divider that the hardware accepts.
pub const MIN_CCR: u32 = 4;

/// The twelve bits of the CCR field.
pub const CCR_MASK: u32 = 0x0FFF;

/// A frequency in Hz.
#[derive(Debug, Clone, Copy, PartialEq, Eq, Structural)]
pub struct Hertz(pub u32);

/// The clocks of the system, as they were frozen.
#[derive(Debug, Clone, Copy, PartialEq, Eq, Structural)]
pub struct Clocks {
    /// The frequency of the APB1 clock.
    pub pclk1: Hertz,
}

/// The APB1 clock in whole MHz, rounded down: the value of CR2.FREQ.
pub open spec fn freq_range_of(pclk1: u32) -> int {
    pclk1 as int / 1_000_000
}

/// A request that the peripheral can serve: a target of 1 Hz to 1 MHz on an
/// APB1 clock of 2 MHz up to (but not including) 51 MHz.
pub open spec fn valid_request(pclk1: u32, freq: u32) -> bool {
    &&& 1 <= freq <= MAX_BUS_FREQ
    &&& MIN_FREQ_RANGE <= freq_range_of(pclk1) <= MAX_FREQ_RANGE
}

/// Whether the target belongs to standard mode.
pub open spec fn standard_mode(freq: u32) -> bool {
    freq <= STANDARD_MODE_MAX
}

/// The rise-time setting: one more than the number of APB1 periods in the
/// longest rise that the mode allows (1000 ns in standard mode, 300 ns in
/// fast mode).
pub open spec fn trise_of(pclk1: u32, freq: u32) -> int {
    if standard_mode(freq) {
        freq_range_of(pclk1) + 1
    } else {
        freq_range_of(pclk1) * 300 / 1000 + 1
    }
}

/// The number of APB1 periods in half an SCL period, rounded down.
pub open spec fn half_period_of(pclk1: u32, freq: u32) -> int
    recommends
        freq >= 1,
{
    pclk1 as int / (freq as int + freq as int)
}

/// The divider written to CCR. In standard mode it is the half period kept
/// to the field's twelve bits and raised to the hardware's minimum; in fast
/// mode it is the minimum.
pub open spec fn ccr_of(pclk1: u32, freq: u32) -> int
    recommends
        freq >= 1,
{
    if standard_mode(freq) {
        let kept = half_period_of(pclk1, freq) % 4096;
        if kept < 4 {
            4
        } else {
            kept
        }
    } else {
        4
    }
}

/// The three timing values that bring the bus to a target frequency.
#[derive(Debug, Clone, Copy, PartialEq, Eq, Structural)]
pub struct Timing {
    /// CR2.FREQ: the APB1 clock in MHz.
    pub freq_range: u32,
    /// TRISE: the longest rise time, in APB1 periods, plus one.
    pub trise: u32,
    /// CCR: APB1 periods per half SCL period.
    pub ccr: u32,
}

impl Timing {
    /// The timing that `new` computes for a request.
    pub open spec fn of(pclk1: u32, freq: u32) -> Timing {
        Timing {
            freq_range: freq_range_of(pclk1) as u32,
            trise: trise_of(pclk1, freq) as u32,
            ccr: ccr_of(pclk1, freq) as u32,
        }
    }

    /// Values that fit their register fields and that the hardware accepts.
    pub open spec fn well_formed(&self) -> bool {
        &&& MIN_FREQ_RANGE <= self.freq_range <= MAX_FREQ_RANGE
        &&& 1 <= self.trise <= 63
        &&& MIN_CCR <= self.ccr <= CCR_MASK
    }

    /// Computes the timing for a target SCL frequency `freq` (Hz) on an APB1
    /// clock of `pclk1` (Hz).
    pub fn new(pclk1: u32, freq: u32) -> (timing: Timing)
        requires
            valid_request(pclk1, freq),
        ensures
            timing == Timing::of(pclk1, freq),
            timing.freq_range == freq_range_of(pclk1),
            timing.trise == trise_of(pclk1, freq),
            timing.ccr == ccr_of(pclk1, freq),
            timing.well_formed(),
    {
        let freq_range: u32 = pclk1 / 1_000_000;
        let trise: u32 = if freq <= STANDARD_MODE_MAX {
            freq_range + 1
        } else {
            (freq_range * 300) / 1000 + 1
        };
        let ccr: u32 = if freq <= STANDARD_MODE_MAX {
            let half_period: u32 = pclk1 / (2 * freq);
            let kept: u32 = half_period & CCR_MASK;
            assert(kept == half_period % 4096) by (bit_vector)
                requires
                    kept == half_period & 0x0FFF,
            ;
            if kept < MIN_CCR {
                MIN_CCR
            } else {
                kept
            }
        } else {
            MIN_CCR
        };
        Timing { freq_range, trise, ccr }
    }

    /// As `new`, for a request that may be out of range: `None` exactly when
    /// the request is not valid.
    pub fn try_new(pclk1: u32, freq: u32) -> (timing: Option<Timing>)
        ensures
            valid_request(pclk1, freq) ==> timing == Some(Timing::of(pclk1, freq)),
            !valid_request(pclk1, freq) ==> timing.is_none(),
    {
        if freq < 1 || freq > MAX_BUS_FREQ {
            return None;
        }
        let freq_range: u32 = pclk1 / 1_000_000;
        if freq_range < MIN_FREQ_RANGE || freq_range > MAX_FREQ_RANGE {
            return None;
        }
        Some(Timing::new(pclk1, freq))
    }
}

/// Whether a bus whose half period takes `ccr` APB1 periods runs within five
/// percent of the target: `| pclk1 / (2 * ccr) - freq | <= freq / 20` over
/// the rationals, written without division.
pub open spec fn within_five_percent(pclk1: u32, freq: u32, ccr: int) -> bool {
    let excess = pclk1 as int - 2 * ccr * freq as int;
    if excess >= 0 {
        10 * excess <= ccr * freq as int
    } else {
        10 * (-excess) <= ccr * freq as int
    }
}

/// The standard-mode requests whose divider hits the target closely: the
/// half period fits the CCR field, and what the division leaves over is at
/// most a twentieth of the bus period.
pub open spec fn divides_closely(pclk1: u32, freq: u32) -> bool
    recommends
        freq >= 1,
{
    &&& half_period_of(pclk1, freq) <= CCR_MASK
    &&& 10 * (pclk1 as int % (freq as int + freq as int)) <= freq as int * half_period_of(pclk1, freq)
}

/// Every valid request yields values that fit their fields: CR2.FREQ within
/// 2 to 50, TRISE within its six bits, and CCR within 4 to 0x0FFF.
pub proof fn lemma_timing_in_range(pclk1: u32, freq: u32)
    requires
        valid_request(pclk1, freq),
    ensures
        2 <= freq_range_of(pclk1) <= 50,
        1 <= trise_of(pclk1, freq) <= 63,
        4 <= ccr_of(pclk1, freq) <= 0x0FFF,
        Timing::of(pclk1, freq).well_formed(),
{
}

/// In standard mode a valid request never needs the minimum: the half
/// period is at least ten APB1 periods.
pub proof fn lemma_standard_mode_half_period(pclk1: u32, freq: u32)
    requires
        valid_request(pclk1, freq),
        standard_mode(freq),
    ensures
        half_period_of(pclk1, freq) >= 10,
        half_period_of(pclk1, freq) <= CCR_MASK ==> ccr_of(pclk1, freq) == half_period_of(
            pclk1,
            freq,
        ),
{
    let p = pclk1 as int;
    let d = freq as int + freq as int;
    assert(p >= 2_000_000);
    assert(1 <= d <= 200_000);
    assert(p / d >= 10) by (nonlinear_arith)
        requires
            p >= 2_000_000,
            1 <= d <= 200_000,
    ;
}

/// In standard mode the bus that a valid request produces runs within five
/// percent of the target exactly when the request divides closely.
pub proof fn lemma_standard_mode_accuracy(pclk1: u32, freq: u32)
    requires
        valid_request(pclk1, freq),
        standard_mode(freq),
    ensures
        within_five_percent(pclk1, freq, ccr_of(pclk1, freq)) <==> divides_closely(pclk1, freq),
{
    let p = pclk1 as int;
    let f = freq as int;
    let d = f + f;
    let q = p / d;
    let r = p % d;
    let c = ccr_of(pclk1, freq);
    lemma_standard_mode_half_period(pclk1, freq);
    vstd::arithmetic::div_mod::lemma_fundamental_div_mod(p, d);
    assert(p == d * q + r);
    assert(0 <= r < d) by (nonlinear_arith)
        requires
            r == p % d,
            d >= 1,
    ;
    if q <= 4095 {
        assert(c == q);
        assert(p - 2 * c * f == r) by (nonlinear_arith)
            requires
                p == d * q + r,
                d == 2 * f,
                c == q,
        ;
        assert(c * f == f * q) by (nonlinear_arith)
            requires
                c == q,
        ;
    } else {
        let kept = q % 4096;
        assert(4 <= c <= 4095);
        assert(q - c >= 4092) by {
            if kept < 4 {
                assert(c == 4);
            } else {
                assert(c == kept);
                vstd::arithmetic::div_mod::lemma_fundamental_div_mod(q, 4096);
                assert(q / 4096 >= 1);
            }
        }
        assert(10 * (p - 2 * c * f) > c * f) by (nonlinear_arith)
            requires
                p == d * q + r,
                d == 2 * f,
                r >= 0,
                f >= 1,
                q - c >= 4092,
                4 <= c <= 4095,
        ;
    }
}

/// A standard-mode request whose APB1 clock is at least forty times the
/// target, and whose half period fits the CCR field, is met within five
/// percent.
pub proof fn lemma_accurate_from_forty_times(pclk1: u32, freq: u32)
    requires
        valid_request(pclk1, freq),
        standard_mode(freq),
        pclk1 >= 40 * freq,
        half_period_of(pclk1, freq) <= CCR_MASK,
    ensures
        within_five_percent(pclk1, freq, ccr_of(pclk1, freq)),
{
    let p = pclk1 as int;
    let f = freq as int;
    let d = f + f;
    let q = p / d;
    let r = p % d;
    vstd::arithmetic::div_mod::lemma_fundamental_div_mod(p, d);
    assert(0 <= r < d) by (nonlinear_arith)
        requires
            r == p % d,
            d >= 1,
    ;
    assert(q >= 20) by (nonlinear_arith)
        requires
            p == d * q + r,
            r < d,
            d == 2 * f,
            p >= 40 * f,
            f >= 1,
    ;
    assert(10 * r <= f * q) by (nonlinear_arith)
        requires
            q >= 20,
            0 <= r < 2 * f,
    ;
    lemma_standard_mode_accuracy(pclk1, freq);
}

} // verus!
