//! Derivation of the CAN bit timing from the clock and the bit rate.

use vstd::prelude::*;
use crate::can::CanError;

verus! {

/// Prescaler and segment lengths of one CAN bit, as written to CTRL1.
#[derive(Clone, Copy, Debug, PartialEq, Eq, Structural)]
pub struct BitTiming {
    /// The source clock is divided by `presdiv + 1` to give the time quantum.
    pub presdiv: u8,
    /// Propagation segment, `propseg + 1` time quanta.
    pub propseg: u8,
    /// Phase segment 1, `pseg1 + 1` time quanta.
    pub pseg1: u8,
    /// Phase segment 2, `pseg2 + 1` time quanta.
    pub pseg2: u8,
    /// Resynchronisation jump width, `rjw + 1` time quanta.
    pub rjw: u8,
}

impl BitTiming {
    /// Time quanta in one bit: the sync segment and the three segments.
    pub open spec fn quanta(self) -> int {
        1 + (self.propseg + 1) + (self.pseg1 + 1) + (self.pseg2 + 1)
    }
}

/// The settings are refused: no bit rate, a clock that is no whole multiple of
/// the bit rate, fewer than five clock cycles per bit, or a prescaler that does
/// not fit in eight bits.
pub open spec fn timing_refused(source: u32, can: u32) -> bool {
    ||| can == 0
    ||| source % can != 0
    ||| source / can < 5
    ||| source / can / 25 > 255
}

/// Between five and seven clock cycles per bit pass the checks but leave
/// fewer time quanta than the smallest legal bit time; no timing exists there.
pub open spec fn timing_reachable(source: u32, can: u32) -> bool {
    timing_refused(source, can) || source / can >= 8
}

/// The prescaler divisor: the clock cycles per bit over 25, the largest
/// number of time quanta in a bit.
pub open spec fn presdiv_of(source: u32, can: u32) -> int {
    (source as int / can as int) / 25
}

/// Time quanta in one bit at that prescaler.
pub open spec fn quanta_of(source: u32, can: u32) -> int {
    (source as int / (presdiv_of(source, can) + 1)) / can as int
}

/// Phase segment 2 and jump width for a number of time quanta.
pub open spec fn pseg2_of(tqs: int) -> int {
    if tqs < 10 {
        1
    } else if tqs < 15 {
        3
    } else if tqs < 20 {
        6
    } else {
        7
    }
}

pub open spec fn rjw_of(tqs: int) -> int {
    if tqs < 10 {
        1
    } else if tqs < 20 {
        2
    } else {
        3
    }
}

pub open spec fn pseg1_of(tqs: int) -> int {
    (tqs - (pseg2_of(tqs) + 1)) / 2 - 1
}

pub open spec fn propseg_of(tqs: int) -> int {
    tqs - (pseg2_of(tqs) + 1) - (pseg1_of(tqs) + 1) - 2
}

/// The timing derived from a clock and a bit rate that are not refused.
pub open spec fn timing_of(source: u32, can: u32) -> BitTiming {
    let tqs = quanta_of(source, can);
    BitTiming {
        presdiv: presdiv_of(source, can) as u8,
        propseg: propseg_of(tqs) as u8,
        pseg1: pseg1_of(tqs) as u8,
        pseg2: pseg2_of(tqs) as u8,
        rjw: rjw_of(tqs) as u8,
    }
}

proof fn lemma_quanta_range(source: u32, can: u32)
    requires
        !timing_refused(source, can),
        timing_reachable(source, can),
    ensures
        8 <= quanta_of(source, can) <= 24,
        quanta_of(source, can) == (source as int / can as int) / (presdiv_of(source, can) + 1),
{
    let ratio = (source / can) as int;
    let k = presdiv_of(source, can);
    assert(quanta_of(source, can) == source as int / ((k + 1) * can as int)) by {
        vstd::arithmetic::div_mod::lemma_div_denominator(source as int, k + 1, can as int);
    }
    assert(ratio / (k + 1) == source as int / (can as int * (k + 1))) by {
        vstd::arithmetic::div_mod::lemma_div_denominator(source as int, can as int, k + 1);
    }
    assert((k + 1) * can as int == can as int * (k + 1)) by (nonlinear_arith);
    let t = ratio / (k + 1);
    assert(k * 25 <= ratio < k * 25 + 25) by {
        vstd::arithmetic::div_mod::lemma_fundamental_div_mod(ratio, 25);
    }
    assert(t * (k + 1) <= ratio < t * (k + 1) + (k + 1)) by {
        vstd::arithmetic::div_mod::lemma_fundamental_div_mod(ratio, k + 1);
    }
    vstd::arithmetic::div_mod::lemma_div_basics(ratio);
    assert(8 <= t <= 24) by (nonlinear_arith)
        requires
            t * (k + 1) <= ratio < t * (k + 1) + (k + 1),
            k * 25 <= ratio < k * 25 + 25,
            ratio >= 8,
            k >= 0,
            k == 0 ==> t == ratio,
    {
    }
}

/// Whether `compute_bit_timing` may be called: the settings are refused, or
/// they leave at least eight time quanta per bit.
pub fn timing_is_reachable(source_frequency: u32, can_frequency: u32) -> (r: bool)
    ensures
        r == timing_reachable(source_frequency, can_frequency),
{
    can_frequency == 0 || source_frequency % can_frequency != 0 || source_frequency / can_frequency
        < 5 || source_frequency / can_frequency / 25 > 255 || source_frequency / can_frequency >= 8
}

/// The bit timing for a source clock and a bit rate, both in Hz.
///
/// The settings are refused when the bit rate is zero, when the clock is no
/// whole multiple of the bit rate, when there are fewer than five clock
/// cycles per bit, or when the prescaler would not fit in eight bits.
pub fn compute_bit_timing(source_frequency: u32, can_frequency: u32) -> (r: Result<
    BitTiming,
    CanError,
>)
    requires
        timing_reachable(source_frequency, can_frequency),
    ensures
        r is Err <==> timing_refused(source_frequency, can_frequency),
        r is Err ==> r == Err::<BitTiming, CanError>(CanError::SettingsError),
        r is Ok ==> r->Ok_0 == timing_of(source_frequency, can_frequency),
        r is Ok ==> r->Ok_0.quanta() == quanta_of(source_frequency, can_frequency),
        r is Ok ==> 8 <= r->Ok_0.quanta() <= 25,
        r is Ok ==> r->Ok_0.propseg <= 7 && r->Ok_0.pseg1 <= 7,
        r is Ok ==> 1 <= r->Ok_0.pseg2 <= 7 && 1 <= r->Ok_0.rjw <= 3,
{
    if can_frequency == 0 || source_frequency % can_frequency != 0 {
        return Err(CanError::SettingsError);
    }
    let ratio: u32 = source_frequency / can_frequency;
    if ratio < 5 || ratio / 25 > 255 {
        return Err(CanError::SettingsError);
    }
    let presdiv: u32 = ratio / 25;
    let tqs: u32 = (source_frequency / (presdiv + 1)) / can_frequency;
    proof {
        lemma_quanta_range(source_frequency, can_frequency);
    }
    let (pseg2, rjw): (u32, u32) = if tqs < 10 {
        (1, 1)
    } else if tqs < 15 {
        (3, 2)
    } else if tqs < 20 {
        (6, 2)
    } else {
        (7, 3)
    };
    let pseg1: u32 = (tqs - (pseg2 + 1)) / 2 - 1;
    let propseg: u32 = tqs - (pseg2 + 1) - (pseg1 + 1) - 2;
    Ok(
        BitTiming {
            presdiv: presdiv as u8,
            propseg: propseg as u8,
            pseg1: pseg1 as u8,
            pseg2: pseg2 as u8,
            rjw: rjw as u8,
        },
    )
}

/// For every clock and bit rate that are accepted and reachable, the derived
/// number of time quanta per bit lies in the legal range 8 to 25 and equals
/// the sync quantum plus the three programmed segments, each of which the
/// hardware lengthens by one: `propseg + pseg1 + pseg2 + 4`.
pub proof fn lemma_bit_timing_segments(source_frequency: u32, can_frequency: u32)
    requires
        !timing_refused(source_frequency, can_frequency),
        timing_reachable(source_frequency, can_frequency),
    ensures
        8 <= quanta_of(source_frequency, can_frequency) < 26,
        ({
            let t = timing_of(source_frequency, can_frequency);
            t.propseg + t.pseg1 + t.pseg2 + 4 == quanta_of(source_frequency, can_frequency)
        }),
{
    lemma_quanta_range(source_frequency, can_frequency);
}

} // verus!
