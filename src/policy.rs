use vstd::prelude::*;
use crate::curve::{calculate_target_temp, target_spec};
use crate::snapshot::BoilerSnapshot;

verus! {

/// Status value of a boiler that is not running.
pub const STATUS_IDLE: u16 = 0;

/// Status value of a boiler that follows its own internal reset curve.
pub const STATUS_INTERNAL_RESET: u16 = 131;

/// Base rate of the standard mapping at or below its low target, and the
/// lowest rate feedback may choose.
pub const BASE_RATE_FLOOR: u16 = 21;

/// Target temperature up to which the standard mapping gives its floor.
pub const BASE_RATE_LOW_TARGET: u16 = 110;

/// Target temperature up to which the standard mapping ramps one step per degree.
pub const BASE_RATE_HIGH_TARGET: u16 = 160;

/// Base rate of the standard mapping above its high target.
pub const BASE_RATE_CEILING: u16 = 96;

/// Feedback trim is computed only for a base rate above this value.
pub const TRIM_MIN_BASE_RATE: u16 = 24;

/// Indoor temperature, in thousandths of a degree, from which feedback engages.
pub const NEAR_SETPOINT_MILLI: i32 = 19600;

/// Rate an idle boiler is raised to when it was left lower.
pub const IDLE_RATE: u16 = 50;

/// Indoor temperature, in thousandths of a degree, above which polling slows down.
pub const WARM_INDOOR_MILLI: i32 = 72000;

/// Outdoor temperature above which polling slows down.
pub const WARM_OUTDOOR: i32 = 70;

/// Delay before the next cycle while control may be needed.
pub const SHORT_DELAY_MS: u64 = 30000;

/// Delay before the next cycle once it is clearly warm.
pub const LONG_DELAY_MS: u64 = 300000;

/// Delay before retrying after a failed cycle.
pub const RETRY_DELAY_MS: u64 = 30000;

/// A raw register value read as a two's-complement 16-bit number.
pub open spec fn signed_value(raw: u16) -> int {
    if raw < 0x8000 {
        raw as int
    } else {
        raw - 0x10000
    }
}

/// Reads a raw register value as a signed 16-bit number.
pub fn signed_reading(raw: u16) -> (r: i32)
    ensures
        r == signed_value(raw),
{
    if raw < 0x8000 {
        raw as i32
    } else {
        raw as i32 - 0x10000
    }
}

/// The supply target: the device's own in internal reset mode, else the
/// outdoor-reset curve at the measured outdoor temperature.
pub open spec fn resolved_target(s: BoilerSnapshot) -> int {
    if s.boiler_status == STATUS_INTERNAL_RESET {
        s.boiler_target_temp as int
    } else {
        target_spec(signed_value(s.outdoor_temp))
    }
}

/// Resolves the supply target of a running boiler.
pub fn resolve_target_temp(s: &BoilerSnapshot) -> (r: u16)
    ensures
        r == resolved_target(*s),
{
    if s.boiler_status == STATUS_INTERNAL_RESET {
        s.boiler_target_temp
    } else {
        calculate_target_temp(signed_reading(s.outdoor_temp))
    }
}

/// The piecewise mapping from supply target to base maximum rate: `floor`
/// up to `low_target`, then `step` more per degree up to `high_target`, and
/// `ceiling` above it.
#[derive(Clone, Copy, Debug, PartialEq, Eq, Structural)]
pub struct RateMapping {
    pub low_target: u16,
    pub high_target: u16,
    pub floor: u16,
    pub step: u16,
    pub ceiling: u16,
}

impl RateMapping {
    /// The ramp is ordered, fits in 16 bits, and never drops below the floor.
    pub open spec fn wf(self) -> bool {
        &&& self.low_target <= self.high_target
        &&& self.floor <= self.ceiling
        &&& self.floor + (self.high_target - self.low_target) * self.step <= u16::MAX
    }

    /// The mapping of the feedback-aware controller: 21 up to 110, one more
    /// per degree up to 160, and 96 above.
    pub fn standard() -> (r: RateMapping)
        ensures
            r.wf(),
            r == (RateMapping {
                low_target: BASE_RATE_LOW_TARGET,
                high_target: BASE_RATE_HIGH_TARGET,
                floor: BASE_RATE_FLOOR,
                step: 1,
                ceiling: BASE_RATE_CEILING,
            }),
    {
        RateMapping {
            low_target: BASE_RATE_LOW_TARGET,
            high_target: BASE_RATE_HIGH_TARGET,
            floor: BASE_RATE_FLOOR,
            step: 1,
            ceiling: BASE_RATE_CEILING,
        }
    }

    /// Whether the mapping is well formed.
    pub fn is_valid(&self) -> (r: bool)
        ensures
            r == self.wf(),
    {
        if self.low_target > self.high_target || self.floor > self.ceiling {
            return false;
        }
        let span: u32 = (self.high_target - self.low_target) as u32;
        proof {
            assert(span * self.step <= 0xFFFF * 0xFFFF) by (nonlinear_arith)
                requires
                    span <= 0xFFFF,
                    self.step <= 0xFFFF,
            ;
        }
        let ramp: u64 = span as u64 * self.step as u64;
        self.floor as u64 + ramp <= 0xFFFF
    }
}

/// The base maximum rate for a supply target.
pub open spec fn base_rate_spec(m: RateMapping, target: int) -> int {
    if target <= m.low_target {
        m.floor as int
    } else if target <= m.high_target {
        m.floor + (target - m.low_target) * m.step
    } else {
        m.ceiling as int
    }
}

/// Maps a supply target to the base maximum rate.
pub fn base_max_rate(m: &RateMapping, target: u16) -> (r: u16)
    requires
        m.wf(),
    ensures
        r == base_rate_spec(*m, target as int),
        m.floor <= r,
{
    if target <= m.low_target {
        m.floor
    } else if target <= m.high_target {
        let d: u16 = target - m.low_target;
        proof {
            let full = (m.high_target - m.low_target) as int;
            assert(d * m.step <= full * m.step) by (nonlinear_arith)
                requires
                    d <= full,
                    0 <= m.step,
            ;
            assert(0 <= d * m.step) by (nonlinear_arith)
                requires
                    0 <= d,
                    0 <= m.step,
            ;
        }
        m.floor + d * m.step
    } else {
        m.ceiling
    }
}

/// Whether an indoor reading is present and near the setpoint.
pub open spec fn feedback_engaged(indoor_milli: Option<i32>) -> bool {
    match indoor_milli {
        Some(t) => t >= NEAR_SETPOINT_MILLI,
        None => false,
    }
}

/// What the feedback trimmer is asked to do in a cycle of a running boiler.
#[derive(Clone, Copy, Debug, PartialEq, Eq, Structural)]
pub enum TrimRequest {
    /// Advance the trimmer on this indoor reading (thousandths of a degree).
    Compute(i32),
    /// Zero the trimmer's integral term; the base rate stands.
    ResetIntegral,
    /// Leave the trimmer alone; the base rate stands.
    Leave,
}

pub open spec fn trim_request_spec(base: int, indoor_milli: Option<i32>) -> TrimRequest {
    if feedback_engaged(indoor_milli) {
        if base > TRIM_MIN_BASE_RATE {
            TrimRequest::Compute(indoor_milli->0)
        } else {
            TrimRequest::ResetIntegral
        }
    } else {
        TrimRequest::Leave
    }
}

/// Decides whether the trimmer computes, is reset, or is left alone.
pub fn trim_request(base: u16, indoor_milli: Option<i32>) -> (r: TrimRequest)
    ensures
        r == trim_request_spec(base as int, indoor_milli),
{
    match indoor_milli {
        Some(t) => {
            if t >= NEAR_SETPOINT_MILLI {
                if base > TRIM_MIN_BASE_RATE {
                    TrimRequest::Compute(t)
                } else {
                    TrimRequest::ResetIntegral
                }
            } else {
                TrimRequest::Leave
            }
        },
        None => TrimRequest::Leave,
    }
}

/// The floor plus the trim, clamped into `[floor, base]`.
pub open spec fn trimmed_rate_spec(floor: int, base: int, trim: int) -> int {
    if floor + trim < floor {
        floor
    } else if floor + trim > base {
        base
    } else {
        floor + trim
    }
}

/// The rate chosen from the trimmer's output, rounded down to an integer.
pub fn trimmed_rate(floor: u16, base: u16, trim: i64) -> (r: u16)
    requires
        floor <= base,
    ensures
        r == trimmed_rate_spec(floor as int, base as int, trim as int),
        floor <= r <= base,
{
    if trim < 0 {
        floor
    } else if trim > (base - floor) as i64 {
        base
    } else {
        floor + trim as u16
    }
}

/// A feedback-derived rate always lies between the floor and the base rate.
pub proof fn lemma_trimmed_rate_within_base(floor: int, base: int, trim: int)
    requires
        floor <= base,
    ensures
        floor <= trimmed_rate_spec(floor, base, trim) <= base,
{
}

/// The override, when there is one, else the computed rate.
pub open spec fn chosen_rate(override_rate: Option<u16>, rate: u16) -> u16 {
    match override_rate {
        Some(v) => v,
        None => rate,
    }
}

/// Lets a configured override replace the computed rate.
pub fn choose_rate(override_rate: Option<u16>, rate: u16) -> (r: u16)
    ensures
        r == chosen_rate(override_rate, rate),
{
    match override_rate {
        Some(v) => v,
        None => rate,
    }
}

/// Whether conditions are clearly outside any need for tight control.
pub open spec fn is_warm(s: BoilerSnapshot) -> bool {
    (match s.indoor_milli {
        Some(t) => t > WARM_INDOOR_MILLI,
        None => false,
    }) || signed_value(s.outdoor_temp) > WARM_OUTDOOR
}

/// The delay before the next cycle after a successful one.
pub fn next_delay(s: &BoilerSnapshot) -> (r: u64)
    ensures
        r == (if is_warm(*s) {
            LONG_DELAY_MS
        } else {
            SHORT_DELAY_MS
        }),
{
    let warm_inside = match s.indoor_milli {
        Some(t) => t > WARM_INDOOR_MILLI,
        None => false,
    };
    if warm_inside || signed_reading(s.outdoor_temp) > WARM_OUTDOOR {
        LONG_DELAY_MS
    } else {
        SHORT_DELAY_MS
    }
}

/// The rate that an idle boiler's maximum rate must be raised to, if any.
pub fn idle_rate_write(max_rate: u16) -> (r: Option<u16>)
    ensures
        r == (if max_rate < IDLE_RATE {
            Some(IDLE_RATE)
        } else {
            None::<u16>
        }),
{
    if max_rate < IDLE_RATE {
        Some(IDLE_RATE)
    } else {
        None
    }
}

} // verus!
