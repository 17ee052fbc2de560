//! Conversion of device samples to 16-bit signed PCM with a gain factor.
use vstd::prelude::*;

verus! {

/// Smallest value of a 16-bit signed sample.
pub const I16_MIN: i32 = -32768;

/// Largest value of a 16-bit signed sample.
pub const I16_MAX: i32 = 32767;

/// Gain of one, in thousandths.
pub const UNITY_GAIN: i32 = 1000;

/// A microphone gain in fixed point: the multiplier is `thousandths / 1000`.
#[derive(Clone, Copy, Debug, PartialEq, Eq, Structural)]
pub struct Gain {
    pub thousandths: i32,
}

impl Gain {
    /// The gain that leaves samples unchanged.
    pub fn unity() -> (g: Gain)
        ensures
            g.thousandths == UNITY_GAIN,
    {
        Gain { thousandths: UNITY_GAIN }
    }

    pub fn from_thousandths(thousandths: i32) -> (g: Gain)
        ensures
            g.thousandths == thousandths,
    {
        Gain { thousandths }
    }
}

/// `x / d` rounded toward zero, as a float-to-integer cast rounds.
pub open spec fn div_toward_zero(x: int, d: int) -> int {
    if x >= 0 {
        x / d
    } else {
        -((-x) / d)
    }
}

/// `v` limited to the 16-bit signed range.
pub open spec fn clamp_i16(v: int) -> int {
    if v < I16_MIN {
        I16_MIN as int
    } else if v > I16_MAX {
        I16_MAX as int
    } else {
        v
    }
}

/// The stored value of a sample whose value on the 16-bit scale is `v`, under a
/// gain of `thousandths / 1000`: the product, clamped, never wrapped.
pub open spec fn amplified(v: int, thousandths: int) -> int {
    clamp_i16(div_toward_zero(v * thousandths, 1000))
}

/// For every gain, an amplified sample stays in the 16-bit signed range, is the
/// scaled product itself whenever that fits, and is the nearest bound when it
/// does not: it never wraps around.
pub proof fn lemma_gain_clamps_never_wraps(v: int, thousandths: int)
    ensures
        I16_MIN <= amplified(v, thousandths) <= I16_MAX,
        I16_MIN <= div_toward_zero(v * thousandths, 1000) <= I16_MAX ==> amplified(v, thousandths)
            == div_toward_zero(v * thousandths, 1000),
        div_toward_zero(v * thousandths, 1000) > I16_MAX ==> amplified(v, thousandths) == I16_MAX,
        div_toward_zero(v * thousandths, 1000) < I16_MIN ==> amplified(v, thousandths) == I16_MIN,
{
}

/// A sample type that an input device delivers, with its value on the 16-bit
/// signed scale.
pub trait NativeSample {
    /// The sample's value on the 16-bit signed scale.
    spec fn scaled_value(&self) -> int;

    fn to_scale(&self) -> (r: i32)
        ensures
            r as int == self.scaled_value(),
            I16_MIN <= r <= I16_MAX,
    ;
}

impl NativeSample for i16 {
    open spec fn scaled_value(&self) -> int {
        *self as int
    }

    fn to_scale(&self) -> (r: i32) {
        *self as i32
    }
}

impl NativeSample for u16 {
    open spec fn scaled_value(&self) -> int {
        *self as int - 32768
    }

    fn to_scale(&self) -> (r: i32) {
        *self as i32 - 32768
    }
}

impl NativeSample for i8 {
    open spec fn scaled_value(&self) -> int {
        *self as int * 256
    }

    fn to_scale(&self) -> (r: i32) {
        *self as i32 * 256
    }
}

impl NativeSample for u8 {
    open spec fn scaled_value(&self) -> int {
        (*self as int - 128) * 256
    }

    fn to_scale(&self) -> (r: i32) {
        (*self as i32 - 128) * 256
    }
}

/// Multiplies a value on the 16-bit scale by the gain and clamps the product
/// to the 16-bit signed range.
pub fn apply_gain(v: i32, gain: Gain) -> (r: i16)
    requires
        I16_MIN <= v <= I16_MAX,
    ensures
        r as int == amplified(v as int, gain.thousandths as int),
{
    let t = gain.thousandths;
    proof {
        assert(-0x8000_0000_0000 <= v as int * t as int <= 0x8000_0000_0000) by (nonlinear_arith)
            requires
                -32768 <= v <= 32767,
                -0x8000_0000 <= t <= 0x7fff_ffff,
        ;
    }
    let p: i64 = (v as i64) * (t as i64);
    let q: i64 = if p >= 0 {
        p / 1000
    } else {
        -((-p) / 1000)
    };
    if q < I16_MIN as i64 {
        I16_MIN as i16
    } else if q > I16_MAX as i64 {
        I16_MAX as i16
    } else {
        q as i16
    }
}

/// Converts one device sample to 16-bit signed PCM under the gain.
pub fn convert_sample<T: NativeSample>(s: &T, gain: Gain) -> (r: i16)
    ensures
        r as int == amplified(s.scaled_value(), gain.thousandths as int),
{
    let v = s.to_scale();
    apply_gain(v, gain)
}

} // verus!
