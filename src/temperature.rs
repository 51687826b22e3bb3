//! Conversion between the accessory's temperature codes and Kelvin.
use vstd::prelude::*;

verus! {

/// Smallest accessory temperature code.
pub const CODE_MIN: u16 = 143;

/// Largest accessory temperature code.
pub const CODE_MAX: u16 = 344;

/// Smallest temperature in Kelvin.
pub const KELVIN_MIN: u16 = 2900;

/// Largest temperature in Kelvin.
pub const KELVIN_MAX: u16 = 7000;

/// Kelvin values coming from a code are multiples of this step.
pub const KELVIN_STEP: u16 = 50;

/// How far `code` lies above the smallest code; codes below it count as the smallest.
pub open spec fn code_offset(code: u16) -> int {
    if code < CODE_MIN { 0 } else { code - CODE_MIN }
}

/// The code interval [143, 344] is mapped linearly onto [2900, 7000]:
/// `2900 + offset * 4100 / 201`, rounded to the nearest multiple of 50
/// (the quotient `offset * 82 / 201` never lies halfway, 201 being odd)
/// and clamped to at most 7000.
pub open spec fn to_kelvin_spec(code: u16) -> int {
    let steps = 58 + (164 * code_offset(code) + 201) / 402;
    if 50 * steps > KELVIN_MAX { KELVIN_MAX as int } else { 50 * steps }
}

/// `kelvin` clamped to [2900, 7000].
pub open spec fn clamp_kelvin(kelvin: u16) -> int {
    if kelvin < KELVIN_MIN {
        KELVIN_MIN as int
    } else if kelvin > KELVIN_MAX {
        KELVIN_MAX as int
    } else {
        kelvin as int
    }
}

/// The clamped Kelvin interval [2900, 7000] is mapped linearly onto [143, 344]:
/// `143 + (k - 2900) * 201 / 4100`, rounded to the nearest integer, halves upwards.
pub open spec fn to_code_spec(kelvin: u16) -> int {
    CODE_MIN + (402 * (clamp_kelvin(kelvin) - KELVIN_MIN) + 4100) / 8200
}

/// Converts an accessory temperature code to Kelvin.
pub fn api_to_kelvin(api: u16) -> (r: u16)
    ensures
        r == to_kelvin_spec(api),
        r % KELVIN_STEP == 0,
        KELVIN_MIN <= r <= KELVIN_MAX,
{
    let offset: u32 = if api < CODE_MIN { 0 } else { (api - CODE_MIN) as u32 };
    let steps: u32 = 58 + (164 * offset + 201) / 402;
    let kelvin: u32 = if steps > 140 { KELVIN_MAX as u32 } else { 50 * steps };
    assert(steps >= 58);
    (kelvin as u16)
}

/// Converts a temperature in Kelvin to the accessory's temperature code.
pub fn kelvin_to_api(kelvin: u16) -> (r: u16)
    ensures
        r == to_code_spec(kelvin),
        CODE_MIN <= r <= CODE_MAX,
{
    let k: u32 = if kelvin < KELVIN_MIN {
        KELVIN_MIN as u32
    } else if kelvin > KELVIN_MAX {
        KELVIN_MAX as u32
    } else {
        kelvin as u32
    };
    let code: u32 = CODE_MIN as u32 + (402 * (k - KELVIN_MIN as u32) + 4100) / 8200;
    (code as u16)
}

/// Every Kelvin step in [2900, 7000] survives the trip to a code and back.
/// The opposite trip loses information: Kelvin is coarser than the codes.
pub proof fn lemma_kelvin_round_trip(kelvin: u16)
    requires
        KELVIN_MIN <= kelvin <= KELVIN_MAX,
        kelvin % KELVIN_STEP == 0,
    ensures
        to_kelvin_spec(to_code_spec(kelvin) as u16) == kelvin,
{
    let j: int = (kelvin - KELVIN_MIN) / 50;
    assert(kelvin == 2900 + 50 * j && 0 <= j <= 82);
    let q: int = (402 * (kelvin - KELVIN_MIN) + 4100) / 8200;
    assert(q == (20100 * j + 4100) / 8200);
    assert(8200 * q <= 20100 * j + 4100 < 8200 * q + 8200) by (nonlinear_arith)
        requires q == (20100 * j + 4100) / 8200, j >= 0;
    assert(0 <= q <= 201);
    assert(to_code_spec(kelvin) == 143 + q);
    let s: int = (164 * q + 201) / 402;
    assert(s == j) by (nonlinear_arith)
        requires
            s == (164 * q + 201) / 402,
            8200 * q <= 20100 * j + 4100 < 8200 * q + 8200,
            q >= 0,
    {
        assert(402 * j <= 164 * q + 201 < 402 * j + 402);
    }
    assert(code_offset((143 + q) as u16) == q);
}

} // verus!
