use vstd::prelude::*;

verus! {

/// The two's-complement value of a 16-bit word.
pub open spec fn signed_value(raw: u16) -> int {
    if raw >= 0x8000 {
        raw as int - 0x10000
    } else {
        raw as int
    }
}

/// Division rounding toward zero.
pub open spec fn div_toward_zero(a: int, b: int) -> int {
    if a >= 0 {
        a / b
    } else {
        -((-a) / b)
    }
}

/// Turns the conversion register's word into a signed code of the chip's resolution.
pub trait ConvertMeasurement {
    /// The code that a conversion register word stands for.
    spec fn spec_convert(raw: u16) -> int;

    /// The largest positive code.
    spec fn spec_max_code() -> int;

    /// Converts a conversion register word to its signed code.
    fn convert_measurement(raw: u16) -> (r: i16)
        ensures
            r as int == Self::spec_convert(raw),
            -Self::spec_max_code() - 1 <= r <= Self::spec_max_code(),
    ;

    /// The largest positive code.
    fn max_code() -> (r: i16)
        ensures
            r as int == Self::spec_max_code(),
            r > 0,
    ;
}

/// Chips with 12 bits of resolution: the code is left-justified in the word.
pub struct Resolution12Bit;

/// Chips with 16 bits of resolution.
pub struct Resolution16Bit;

impl ConvertMeasurement for Resolution12Bit {
    /// The two's-complement word shifted right by four bits, with sign extension.
    open spec fn spec_convert(raw: u16) -> int {
        signed_value(raw) / 16
    }

    open spec fn spec_max_code() -> int {
        2047
    }

    fn convert_measurement(raw: u16) -> (r: i16) {
        let q: i32 = (raw / 16) as i32;
        if raw >= 0x8000 {
            assert((raw as int - 0x10000) / 16 == raw as int / 16 - 4096) by (nonlinear_arith);
            (q - 4096) as i16
        } else {
            q as i16
        }
    }

    fn max_code() -> (r: i16) {
        2047
    }
}

impl ConvertMeasurement for Resolution16Bit {
    /// The two's-complement word itself.
    open spec fn spec_convert(raw: u16) -> int {
        signed_value(raw)
    }

    open spec fn spec_max_code() -> int {
        32767
    }

    fn convert_measurement(raw: u16) -> (r: i16) {
        if raw >= 0x8000 {
            (raw as i32 - 0x10000) as i16
        } else {
            raw as i16
        }
    }

    fn max_code() -> (r: i16) {
        32767
    }
}

/// Full-scale range of the programmable gain amplifier.
#[derive(Debug, Clone, Copy, PartialEq, Eq)]
pub enum FullScaleRange {
    /// +/- 6.144 V
    Within6_144V,
    /// +/- 4.096 V
    Within4_096V,
    /// +/- 2.048 V
    Within2_048V,
    /// +/- 1.024 V
    Within1_024V,
    /// +/- 0.512 V
    Within0_512V,
    /// +/- 0.256 V
    Within0_256V,
}

/// Full-scale value in microvolts.
pub open spec fn spec_microvolts(fsr: FullScaleRange) -> int {
    match fsr {
        FullScaleRange::Within6_144V => 6_144_000,
        FullScaleRange::Within4_096V => 4_096_000,
        FullScaleRange::Within2_048V => 2_048_000,
        FullScaleRange::Within1_024V => 1_024_000,
        FullScaleRange::Within0_512V => 512_000,
        FullScaleRange::Within0_256V => 256_000,
    }
}

/// Value of the gain field of the configuration register.
pub open spec fn spec_pga_bits(fsr: FullScaleRange) -> u16 {
    match fsr {
        FullScaleRange::Within6_144V => 0,
        FullScaleRange::Within4_096V => 1,
        FullScaleRange::Within2_048V => 2,
        FullScaleRange::Within1_024V => 3,
        FullScaleRange::Within0_512V => 4,
        FullScaleRange::Within0_256V => 5,
    }
}

impl FullScaleRange {
    /// Full-scale value in microvolts.
    pub fn microvolts(&self) -> (r: i32)
        ensures
            r as int == spec_microvolts(*self),
    {
        match self {
            FullScaleRange::Within6_144V => 6_144_000,
            FullScaleRange::Within4_096V => 4_096_000,
            FullScaleRange::Within2_048V => 2_048_000,
            FullScaleRange::Within1_024V => 1_024_000,
            FullScaleRange::Within0_512V => 512_000,
            FullScaleRange::Within0_256V => 256_000,
        }
    }

    /// Value of the gain field of the configuration register.
    pub fn pga_bits(&self) -> (r: u8)
        ensures
            r as u16 == spec_pga_bits(*self),
            r < 8,
    {
        match self {
            FullScaleRange::Within6_144V => 0,
            FullScaleRange::Within4_096V => 1,
            FullScaleRange::Within2_048V => 2,
            FullScaleRange::Within1_024V => 3,
            FullScaleRange::Within0_512V => 4,
            FullScaleRange::Within0_256V => 5,
        }
    }
}

/// The physical sample, in microvolts, of a code: `code * full_scale / max_code`,
/// rounded toward zero.
pub open spec fn spec_scale(code: int, max_code: int, fsr: FullScaleRange) -> int {
    div_toward_zero(code * spec_microvolts(fsr), max_code)
}

/// Scales a signed code to microvolts for the given full-scale range, where
/// `max_code` is the largest positive code of the chip.
pub fn scale_measurement(code: i16, max_code: i16, fsr: FullScaleRange) -> (r: i32)
    requires
        0 < max_code,
        -max_code - 1 <= code <= max_code,
    ensures
        r as int == spec_scale(code as int, max_code as int, fsr),
{
    let full: i64 = fsr.microvolts() as i64;
    let c: i64 = code as i64;
    let m: i64 = max_code as i64;
    assert(0 <= full <= 6_144_000);
    if c >= 0 {
        let p: i64 = c * full;
        assert(p <= m * full) by (nonlinear_arith)
            requires
                p == c * full,
                0 <= c <= m,
                0 <= full,
        ;
        proof {
            assert(m * full == full * m) by (nonlinear_arith);
            vstd::arithmetic::div_mod::lemma_div_is_ordered(p as int, m * full, m as int);
            vstd::arithmetic::div_mod::lemma_div_by_multiple(full as int, m as int);
            vstd::arithmetic::div_mod::lemma_div_pos_is_pos(p as int, m as int);
        }
        (p / m) as i32
    } else {
        assert((-c) * full <= 32768 * 6_144_000) by (nonlinear_arith)
            requires
                0 < -c <= 32768,
                0 <= full <= 6_144_000,
        ;
        let p: i64 = (-c) * full;
        assert(p <= 2 * m * full) by (nonlinear_arith)
            requires
                p == (-c) * full,
                0 < -c <= m + 1,
                1 <= m,
                0 <= full,
        ;
        proof {
            assert(2 * m * full == 2 * full * m) by (nonlinear_arith);
            vstd::arithmetic::div_mod::lemma_div_is_ordered(p as int, 2 * full * m, m as int);
            vstd::arithmetic::div_mod::lemma_div_by_multiple(2 * full as int, m as int);
            vstd::arithmetic::div_mod::lemma_div_pos_is_pos(p as int, m as int);
            assert(code as int * spec_microvolts(fsr) == -(p as int)) by (nonlinear_arith)
                requires
                    p == (-c) * full,
                    c == code,
                    full == spec_microvolts(fsr),
            ;
        }
        (-(p / m)) as i32
    }
}

/// The largest positive code scales to the full positive value, its negation to
/// the full negative value, and zero to zero.
pub proof fn lemma_scale_full_range(max_code: int, fsr: FullScaleRange)
    requires
        0 < max_code,
    ensures
        spec_scale(max_code, max_code, fsr) == spec_microvolts(fsr),
        spec_scale(-max_code, max_code, fsr) == -spec_microvolts(fsr),
        spec_scale(0, max_code, fsr) == 0,
{
    let full = spec_microvolts(fsr);
    vstd::arithmetic::div_mod::lemma_div_by_multiple(full, max_code);
    assert(max_code * full == full * max_code) by (nonlinear_arith);
    assert(-max_code * full == -(full * max_code)) by (nonlinear_arith);
    assert(0 * full == 0);
}

} // verus!
