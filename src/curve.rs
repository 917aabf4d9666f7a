use vstd::prelude::*;

verus! {

/// Supply target when it is warm outside.
pub const SUPPLY_MIN: i32 = 85;

/// Supply target when it is cold outside.
pub const SUPPLY_MAX: i32 = 171;

/// Outdoor temperature above which the supply target is `SUPPLY_MIN`.
pub const ODR_MAX: i32 = 63;

/// Outdoor temperature below which the supply target is `SUPPLY_MAX`.
pub const ODR_MIN: i32 = -14;

/// The outdoor-reset curve: a linear ramp between the two bounds,
/// truncated toward zero, flat outside them.
pub open spec fn target_spec(outdoor: int) -> int {
    if outdoor > ODR_MAX {
        SUPPLY_MIN as int
    } else if outdoor < ODR_MIN {
        SUPPLY_MAX as int
    } else {
        SUPPLY_MIN + (ODR_MAX - outdoor) * (SUPPLY_MAX - SUPPLY_MIN) / (ODR_MAX - ODR_MIN)
    }
}

proof fn lemma_ramp_bounds(outdoor: int)
    requires
        ODR_MIN <= outdoor <= ODR_MAX,
    ensures
        0 <= (ODR_MAX - outdoor) * (SUPPLY_MAX - SUPPLY_MIN) / (ODR_MAX - ODR_MIN) <= SUPPLY_MAX
            - SUPPLY_MIN,
{
    let d = ODR_MAX - outdoor;
    assert(0 <= d <= 77);
    assert(0 <= d * 86 <= 77 * 86) by (nonlinear_arith)
        requires
            0 <= d <= 77,
    ;
    vstd::arithmetic::div_mod::lemma_div_is_ordered(0, d * 86, 77);
    vstd::arithmetic::div_mod::lemma_div_is_ordered(d * 86, (77 * 86) as int, 77);
    vstd::arithmetic::div_mod::lemma_div_multiples_vanish(86, 77);
}

/// Target supply temperature for an outdoor temperature.
pub fn calculate_target_temp(outside_temp: i32) -> (r: u16)
    ensures
        r as int == target_spec(outside_temp as int),
{
    if outside_temp > ODR_MAX {
        return SUPPLY_MIN as u16;
    }
    if outside_temp < ODR_MIN {
        return SUPPLY_MAX as u16;
    }
    proof {
        lemma_ramp_bounds(outside_temp as int);
    }
    let span: i32 = (ODR_MAX - outside_temp) * (SUPPLY_MAX - SUPPLY_MIN);
    let ramp: i32 = span / (ODR_MAX - ODR_MIN);
    (SUPPLY_MIN + ramp) as u16
}

/// The curve never rises as the outdoor temperature rises, and stays
/// between the supply bounds.
pub proof fn lemma_target_monotone_bounded(cold: int, warm: int)
    requires
        cold <= warm,
    ensures
        target_spec(warm) <= target_spec(cold),
        SUPPLY_MIN <= target_spec(cold) <= SUPPLY_MAX,
        SUPPLY_MIN <= target_spec(warm) <= SUPPLY_MAX,
{
    if ODR_MIN <= cold <= ODR_MAX {
        lemma_ramp_bounds(cold);
    }
    if ODR_MIN <= warm <= ODR_MAX {
        lemma_ramp_bounds(warm);
    }
    if ODR_MIN <= cold && warm <= ODR_MAX {
        assert((ODR_MAX - warm) * 86 <= (ODR_MAX - cold) * 86) by (nonlinear_arith)
            requires
                cold <= warm,
        ;
        vstd::arithmetic::div_mod::lemma_div_is_ordered(
            (ODR_MAX - warm) * 86,
            (ODR_MAX - cold) * 86,
            77,
        );
    }
}

} // verus!
