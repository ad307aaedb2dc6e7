//! A temperature value type.
//!
//! A [`Temperature`] is an immutable pair of a magnitude and a display scale.
//! The magnitude is always the Kelvin equivalent of the represented
//! temperature, held as the bit pattern of an IEEE 754 binary32 number, so
//! that no precision beyond single precision is ever promised or lost.
//! The display scale is a tag used only for presentation: changing it never
//! touches the magnitude.
//!
//! All floating-point arithmetic — the affine formulas that turn a Celsius,
//! Fahrenheit or Rankine reading into a Kelvin magnitude and back — lives
//! with the caller, which hands bit patterns in and takes bit patterns out.
//! Everything in this crate is integer and tag logic on those bit patterns,
//! and is verified.

use vstd::prelude::*;

verus! {

/// The scale a temperature is displayed in. A pure tag with no behaviour:
/// it never affects the stored magnitude, only how the value is presented.
#[derive(Clone, Copy, Debug, PartialEq, Eq, Structural)]
pub enum Scale {
    Celsius,
    Fahrenheit,
    Kelvin,
    Rankine,
}

impl Default for Scale {
    /// The default scale is Kelvin.
    fn default() -> (s: Scale)
        ensures
            s == Scale::Kelvin,
    {
        Scale::Kelvin
    }
}

/// The one failure of this crate: a fallible construction was handed a
/// magnitude that does not compare at or above zero.
#[derive(Clone, Copy, Debug, PartialEq, Eq, Structural)]
pub enum TemperatureError {
    InvalidMagnitude,
}

/// Bit mask of the exponent field of an IEEE 754 binary32 bit pattern.
pub const EXPONENT_MASK: u32 = 0x7f80_0000;

/// Bit mask of the fraction field of an IEEE 754 binary32 bit pattern.
pub const FRACTION_MASK: u32 = 0x007f_ffff;

/// The IEEE 754 binary32 bit pattern of negative zero: sign bit set,
/// every other bit clear.
pub const NEGATIVE_ZERO_BITS: u32 = 0x8000_0000;

/// Whether a binary32 bit pattern encodes a NaN: exponent field all ones
/// and fraction field not zero.
pub open spec fn bits_are_nan(bits: u32) -> bool {
    (bits & EXPONENT_MASK) == EXPONENT_MASK && (bits & FRACTION_MASK) != 0
}

/// Whether the binary32 value behind a bit pattern compares at or above
/// zero. Per IEEE 754 ordering that holds exactly when the value is not a
/// NaN and either its sign bit is clear (zero, a positive number, or
/// positive infinity) or it is negative zero, which equals zero.
pub open spec fn bits_at_least_zero(bits: u32) -> bool {
    !bits_are_nan(bits) && (bits >> 31 == 0 || bits == NEGATIVE_ZERO_BITS)
}

/// An absolute temperature: a magnitude together with the scale it is
/// displayed in.
///
/// The magnitude is canonically in Kelvin whatever the display scale, held
/// as the bit pattern of an IEEE 754 binary32 number. Any pair of bit
/// pattern and scale is a well-formed value: no range is enforced, so
/// physically impossible magnitudes (below zero Kelvin, NaN, infinite) are
/// representable on purpose.
///
/// Equality is representation equality: two values are equal exactly when
/// both the magnitude bits and the display scale match. Two values denoting
/// the same physical temperature under different scales are not equal.
#[derive(Clone, Copy, Debug, PartialEq, Eq, Structural)]
pub struct Temperature {
    /// IEEE 754 binary32 bit pattern of the magnitude, in Kelvin.
    pub kelvin: u32,
    /// The scale used for presentation only.
    pub scale: Scale,
}

impl Temperature {
    /// The value a Kelvin reading constructs: the reading itself as the
    /// magnitude, displayed in Kelvin.
    pub open spec fn spec_kelvin(kelvin: u32) -> Temperature {
        Temperature { kelvin, scale: Scale::Kelvin }
    }

    /// `self` re-tagged: the same magnitude under another display scale.
    pub open spec fn spec_with_scale(self, scale: Scale) -> Temperature {
        Temperature { kelvin: self.kelvin, scale }
    }

    /// Constructs from a Kelvin reading, given as a binary32 bit pattern.
    /// The Kelvin formula is the identity: the reading is stored unchanged.
    pub fn kelvin(kelvin: u32) -> (t: Temperature)
        ensures
            t == Temperature::spec_kelvin(kelvin),
    {
        Temperature { kelvin, scale: Scale::Kelvin }
    }

    /// Constructs from a Kelvin reading; an alias of [`Temperature::kelvin`].
    pub fn new(kelvin: u32) -> (t: Temperature)
        ensures
            t == Temperature::spec_kelvin(kelvin),
    {
        Temperature::kelvin(kelvin)
    }

    /// Short-name alias of [`Temperature::kelvin`].
    #[allow(non_snake_case)]
    pub fn K(kelvin: u32) -> (t: Temperature)
        ensures
            t == Temperature::spec_kelvin(kelvin),
    {
        Temperature::kelvin(kelvin)
    }

    /// Constructs from a Kelvin magnitude, given as a binary32 bit pattern,
    /// and a display scale. This is the entry point for readings on the
    /// other scales: the caller applies the scale's affine formula in
    /// floating point and hands the resulting Kelvin magnitude here,
    /// tagged with the scale the reading was taken in.
    pub fn from_parts(kelvin: u32, scale: Scale) -> (t: Temperature)
        ensures
            t == (Temperature { kelvin, scale }),
    {
        Temperature { kelvin, scale }
    }

    /// Fallible construction from a raw magnitude, given as a binary32 bit
    /// pattern. Succeeds exactly when the magnitude compares at or above
    /// zero, yielding the same value as [`Temperature::kelvin`]; fails with
    /// [`TemperatureError::InvalidMagnitude`] on a negative magnitude and on
    /// a NaN. This is the only validation point: the scale constructors
    /// accept any reading.
    pub fn try_new(kelvin: u32) -> (r: Result<Temperature, TemperatureError>)
        ensures
            r is Ok <==> bits_at_least_zero(kelvin),
            bits_at_least_zero(kelvin) ==> r == Ok::<Temperature, TemperatureError>(
                Temperature::spec_kelvin(kelvin),
            ),
            !bits_at_least_zero(kelvin) ==> r == Err::<Temperature, TemperatureError>(
                TemperatureError::InvalidMagnitude,
            ),
    {
        let is_nan = (kelvin & EXPONENT_MASK) == EXPONENT_MASK && (kelvin & FRACTION_MASK) != 0;
        if !is_nan && (kelvin >> 31 == 0 || kelvin == NEGATIVE_ZERO_BITS) {
            Ok(Temperature::kelvin(kelvin))
        } else {
            Err(TemperatureError::InvalidMagnitude)
        }
    }

    /// The magnitude in Kelvin, as a binary32 bit pattern. This is also
    /// the numeric extraction for a value displayed in Kelvin, whose
    /// inverse formula is the identity; extraction on the other scales is
    /// the caller's floating-point affine formula over this bit pattern.
    pub fn magnitude_bits(self) -> (bits: u32)
        ensures
            bits == self.kelvin,
    {
        self.kelvin
    }

    /// The scale this value is displayed in.
    pub fn display_scale(self) -> (s: Scale)
        ensures
            s == self.scale,
    {
        self.scale
    }

    /// Re-tags to Celsius: the same magnitude, displayed in Celsius.
    pub fn to_celsius(self) -> (t: Temperature)
        ensures
            t == self.spec_with_scale(Scale::Celsius),
    {
        Temperature { kelvin: self.kelvin, scale: Scale::Celsius }
    }

    /// Re-tags to Fahrenheit: the same magnitude, displayed in Fahrenheit.
    pub fn to_fahrenheit(self) -> (t: Temperature)
        ensures
            t == self.spec_with_scale(Scale::Fahrenheit),
    {
        Temperature { kelvin: self.kelvin, scale: Scale::Fahrenheit }
    }

    /// Re-tags to Kelvin: the same magnitude, displayed in Kelvin.
    pub fn to_kelvin(self) -> (t: Temperature)
        ensures
            t == self.spec_with_scale(Scale::Kelvin),
    {
        Temperature { kelvin: self.kelvin, scale: Scale::Kelvin }
    }

    /// Re-tags to Rankine: the same magnitude, displayed in Rankine.
    pub fn to_rankine(self) -> (t: Temperature)
        ensures
            t == self.spec_with_scale(Scale::Rankine),
    {
        Temperature { kelvin: self.kelvin, scale: Scale::Rankine }
    }

    /// Absolute zero: 0 K, the coldest representable temperature.
    pub fn absolute_zero() -> (t: Temperature)
        ensures
            t == Temperature::spec_kelvin(ABSOLUTE_ZERO_BITS),
    {
        Temperature::kelvin(ABSOLUTE_ZERO_BITS)
    }

    /// The freezing point of brine, 255.37 K.
    pub fn freezing_point_of_brine() -> (t: Temperature)
        ensures
            t == Temperature::spec_kelvin(FREEZING_POINT_OF_BRINE_BITS),
    {
        Temperature::kelvin(FREEZING_POINT_OF_BRINE_BITS)
    }

    /// The freezing point of water, 273.15 K.
    pub fn freezing_point_of_water() -> (t: Temperature)
        ensures
            t == Temperature::spec_kelvin(FREEZING_POINT_OF_WATER_BITS),
    {
        Temperature::kelvin(FREEZING_POINT_OF_WATER_BITS)
    }

    /// The boiling point of water, 373.1339 K.
    pub fn boiling_point_of_water() -> (t: Temperature)
        ensures
            t == Temperature::spec_kelvin(BOILING_POINT_OF_WATER_BITS),
    {
        Temperature::kelvin(BOILING_POINT_OF_WATER_BITS)
    }

    /// The lowest representable temperature; the same value as
    /// [`Temperature::absolute_zero`].
    pub fn min() -> (t: Temperature)
        ensures
            t == Temperature::spec_kelvin(ABSOLUTE_ZERO_BITS),
    {
        Temperature::absolute_zero()
    }

    /// The highest representable temperature: the greatest finite binary32
    /// magnitude, displayed in Kelvin. Extracted in Kelvin it is that
    /// greatest finite value itself, since Kelvin extraction is the
    /// identity.
    pub fn max() -> (t: Temperature)
        ensures
            t == Temperature::spec_kelvin(GREATEST_FINITE_BITS),
    {
        Temperature::kelvin(GREATEST_FINITE_BITS)
    }
}

impl Default for Temperature {
    /// The default temperature is absolute zero, displayed in Kelvin.
    fn default() -> (t: Temperature)
        ensures
            t == Temperature::spec_kelvin(ABSOLUTE_ZERO_BITS),
    {
        Temperature::absolute_zero()
    }
}

/// Binary32 bit pattern of 0.0, the Kelvin magnitude of absolute zero.
pub const ABSOLUTE_ZERO_BITS: u32 = 0x0000_0000;

/// Binary32 bit pattern of 255.37, the Kelvin magnitude of the freezing
/// point of brine.
pub const FREEZING_POINT_OF_BRINE_BITS: u32 = 0x437f_5eb8;

/// Binary32 bit pattern of 273.15, the Kelvin magnitude of the freezing
/// point of water.
pub const FREEZING_POINT_OF_WATER_BITS: u32 = 0x4388_9333;

/// Binary32 bit pattern of 373.1339, the Kelvin magnitude of the boiling
/// point of water.
pub const BOILING_POINT_OF_WATER_BITS: u32 = 0x43ba_9124;

/// Bit pattern of the greatest finite binary32 value: the magnitude of the
/// highest representable temperature.
pub const GREATEST_FINITE_BITS: u32 = 0x7f7f_ffff;

/// Re-tagging never changes the magnitude, only the display scale: for any
/// temperature and any scale, the re-tagged value keeps the magnitude bits
/// unchanged and carries exactly the requested scale.
pub proof fn lemma_retag_preserves_magnitude(t: Temperature, scale: Scale)
    ensures
        t.spec_with_scale(scale).kelvin == t.kelvin,
        t.spec_with_scale(scale).scale == scale,
{
}

/// A Kelvin reading round-trips exactly: constructing from any bit pattern
/// stores it unchanged, and extraction in Kelvin — the identity on the
/// magnitude — hands the same bit pattern back.
pub proof fn lemma_kelvin_round_trip(kelvin: u32)
    ensures
        Temperature::spec_kelvin(kelvin).kelvin == kelvin,
        Temperature::spec_kelvin(kelvin).scale == Scale::Kelvin,
{
}

/// Equality is representation equality: two temperatures displayed in
/// different scales are never equal, whatever their magnitudes — even two
/// values denoting the same physical temperature.
pub proof fn lemma_distinct_scales_never_equal(a: Temperature, b: Temperature)
    requires
        a.scale != b.scale,
    ensures
        a != b,
{
}

} // verus!
