use vstd::prelude::*;

verus! {

/// Operational status / single-shot start bit (bit 15).
pub const OS: u16 = 0x8000;

/// Operating-mode bit (bit 8): high for one-shot, low for continuous.
pub const OP_MODE: u16 = 0x0100;

/// Multiplexer bits (bits 14 to 12).
pub const MUX_BITS: u16 = 0x7000;

/// Gain (full-scale-range) bits (bits 11 to 9).
pub const PGA_BITS: u16 = 0x0e00;

/// Operational status bit of a configuration word.
pub open spec fn os_of(bits: u16) -> u16 {
    (bits >> 15u16) & 1u16
}

/// Multiplexer (channel) field of a configuration word.
pub open spec fn mux_of(bits: u16) -> u16 {
    (bits >> 12u16) & 7u16
}

/// Programmable-gain (full-scale-range) field of a configuration word.
pub open spec fn pga_of(bits: u16) -> u16 {
    (bits >> 9u16) & 7u16
}

/// Operating-mode bit of a configuration word.
pub open spec fn mode_of(bits: u16) -> u16 {
    (bits >> 8u16) & 1u16
}

/// Data-rate field of a configuration word.
pub open spec fn dr_of(bits: u16) -> u16 {
    (bits >> 5u16) & 7u16
}

/// Comparator configuration field of a configuration word.
pub open spec fn comp_of(bits: u16) -> u16 {
    bits & 0x1fu16
}

/// The named fields of the configuration register.
#[derive(Debug, Clone, Copy, PartialEq, Eq)]
pub struct ConfigFields {
    pub os: u16,
    pub mux: u16,
    pub pga: u16,
    pub mode: u16,
    pub dr: u16,
    pub comp: u16,
}

impl ConfigFields {
    /// Every field fits its width.
    pub open spec fn valid(self) -> bool {
        self.os < 2 && self.mux < 8 && self.pga < 8 && self.mode < 2 && self.dr < 8 && self.comp
            < 32
    }
}

/// The configuration word that holds the given field values.
pub open spec fn encode_fields(os: u16, mux: u16, pga: u16, mode: u16, dr: u16, comp: u16) -> u16 {
    (os << 15u16) | (mux << 12u16) | (pga << 9u16) | (mode << 8u16) | (dr << 5u16) | comp
}

/// Decoding an encoded configuration gives back each field.
pub proof fn lemma_fields_round_trip(os: u16, mux: u16, pga: u16, mode: u16, dr: u16, comp: u16)
    requires
        os < 2,
        mux < 8,
        pga < 8,
        mode < 2,
        dr < 8,
        comp < 32,
    ensures
        os_of(encode_fields(os, mux, pga, mode, dr, comp)) == os,
        mux_of(encode_fields(os, mux, pga, mode, dr, comp)) == mux,
        pga_of(encode_fields(os, mux, pga, mode, dr, comp)) == pga,
        mode_of(encode_fields(os, mux, pga, mode, dr, comp)) == mode,
        dr_of(encode_fields(os, mux, pga, mode, dr, comp)) == dr,
        comp_of(encode_fields(os, mux, pga, mode, dr, comp)) == comp,
{
    assert(os_of(encode_fields(os, mux, pga, mode, dr, comp)) == os) by (bit_vector)
        requires
            os < 2,
            mux < 8,
            pga < 8,
            mode < 2,
            dr < 8,
            comp < 32,
    ;
    assert(mux_of(encode_fields(os, mux, pga, mode, dr, comp)) == mux) by (bit_vector)
        requires
            os < 2,
            mux < 8,
            pga < 8,
            mode < 2,
            dr < 8,
            comp < 32,
    ;
    assert(pga_of(encode_fields(os, mux, pga, mode, dr, comp)) == pga) by (bit_vector)
        requires
            os < 2,
            mux < 8,
            pga < 8,
            mode < 2,
            dr < 8,
            comp < 32,
    ;
    assert(mode_of(encode_fields(os, mux, pga, mode, dr, comp)) == mode) by (bit_vector)
        requires
            os < 2,
            mux < 8,
            pga < 8,
            mode < 2,
            dr < 8,
            comp < 32,
    ;
    assert(dr_of(encode_fields(os, mux, pga, mode, dr, comp)) == dr) by (bit_vector)
        requires
            os < 2,
            mux < 8,
            pga < 8,
            mode < 2,
            dr < 8,
            comp < 32,
    ;
    assert(comp_of(encode_fields(os, mux, pga, mode, dr, comp)) == comp) by (bit_vector)
        requires
            os < 2,
            mux < 8,
            pga < 8,
            mode < 2,
            dr < 8,
            comp < 32,
    ;
}

/// Encoding the fields of a configuration word gives back the word.
pub proof fn lemma_word_round_trip(bits: u16)
    ensures
        encode_fields(
            os_of(bits),
            mux_of(bits),
            pga_of(bits),
            mode_of(bits),
            dr_of(bits),
            comp_of(bits),
        ) == bits,
{
    assert(encode_fields(
        os_of(bits),
        mux_of(bits),
        pga_of(bits),
        mode_of(bits),
        dr_of(bits),
        comp_of(bits),
    ) == bits) by (bit_vector);
}

/// A 16-bit configuration register value.
#[derive(Debug, Clone, Copy, PartialEq, Eq)]
pub struct Config {
    pub bits: u16,
}

impl Config {
    /// The configuration that holds the given field values.
    pub fn from_fields(f: ConfigFields) -> (r: Config)
        requires
            f.valid(),
        ensures
            r.bits == encode_fields(f.os, f.mux, f.pga, f.mode, f.dr, f.comp),
            r.fields() == f,
    {
        proof {
            lemma_fields_round_trip(f.os, f.mux, f.pga, f.mode, f.dr, f.comp);
        }
        Config {
            bits: (f.os << 15u16) | (f.mux << 12u16) | (f.pga << 9u16) | (f.mode << 8u16) | (f.dr
                << 5u16) | f.comp,
        }
    }

    /// The field values of this configuration.
    pub open spec fn fields(self) -> ConfigFields {
        ConfigFields {
            os: os_of(self.bits),
            mux: mux_of(self.bits),
            pga: pga_of(self.bits),
            mode: mode_of(self.bits),
            dr: dr_of(self.bits),
            comp: comp_of(self.bits),
        }
    }

    /// Reads the field values of this configuration.
    pub fn to_fields(&self) -> (r: ConfigFields)
        ensures
            r == self.fields(),
            r.valid(),
            encode_fields(r.os, r.mux, r.pga, r.mode, r.dr, r.comp) == self.bits,
    {
        let b = self.bits;
        proof {
            lemma_word_round_trip(b);
            assert(os_of(b) < 2 && mux_of(b) < 8 && pga_of(b) < 8 && mode_of(b) < 2 && dr_of(b) < 8
                && comp_of(b) < 32) by (bit_vector);
        }
        ConfigFields {
            os: (b >> 15u16) & 1u16,
            mux: (b >> 12u16) & 7u16,
            pga: (b >> 9u16) & 7u16,
            mode: (b >> 8u16) & 1u16,
            dr: (b >> 5u16) & 7u16,
            comp: b & 0x1fu16,
        }
    }

    /// Whether any bit of `mask` is set.
    pub fn is_high(&self, mask: u16) -> (r: bool)
        ensures
            r == (self.bits & mask != 0),
    {
        self.bits & mask != 0
    }

    /// This configuration with the bits of `mask` set.
    pub fn with_high(&self, mask: u16) -> (r: Config)
        ensures
            r.bits == self.bits | mask,
    {
        Config { bits: self.bits | mask }
    }

    /// This configuration with the bits of `mask` cleared.
    pub fn with_low(&self, mask: u16) -> (r: Config)
        ensures
            r.bits == self.bits & !mask,
    {
        Config { bits: self.bits & !mask }
    }

    /// This configuration with the multiplexer field replaced by `mux`.
    pub fn with_mux_bits(&self, mux: u8) -> (r: Config)
        requires
            mux < 8,
        ensures
            r.bits == (self.bits & !MUX_BITS) | ((mux as u16) << 12u16),
            r.fields() == (ConfigFields { mux: mux as u16, ..self.fields() }),
    {
        let b = self.bits;
        let m = mux as u16;
        let nb = (b & !MUX_BITS) | (m << 12u16);
        proof {
            assert(mux_of(nb) == m && os_of(nb) == os_of(b) && pga_of(nb) == pga_of(b) && mode_of(
                nb,
            ) == mode_of(b) && dr_of(nb) == dr_of(b) && comp_of(nb) == comp_of(b)) by (bit_vector)
                requires
                    m < 8,
                    nb == (b & !0x7000u16) | (m << 12u16),
            ;
        }
        Config { bits: nb }
    }
}

impl Config {
    /// This configuration with the gain (full-scale-range) field replaced by `pga`.
    pub fn with_pga_bits(&self, pga: u8) -> (r: Config)
        requires
            pga < 8,
        ensures
            r.bits == (self.bits & !PGA_BITS) | ((pga as u16) << 9u16),
            r.fields() == (ConfigFields { pga: pga as u16, ..self.fields() }),
    {
        let b = self.bits;
        let g = pga as u16;
        let nb = (b & !PGA_BITS) | (g << 9u16);
        proof {
            assert(pga_of(nb) == g && os_of(nb) == os_of(b) && mux_of(nb) == mux_of(b) && mode_of(
                nb,
            ) == mode_of(b) && dr_of(nb) == dr_of(b) && comp_of(nb) == comp_of(b)) by (bit_vector)
                requires
                    g < 8,
                    nb == (b & !0x0e00u16) | (g << 9u16),
            ;
        }
        Config { bits: nb }
    }
}

/// Setting the operating-mode bit makes it one and keeps every other field.
pub proof fn lemma_mode_high(bits: u16)
    ensures
        (Config { bits: bits | OP_MODE }).fields() == (ConfigFields {
            mode: 1,
            ..(Config { bits }).fields()
        }),
{
    let nb = bits | 0x100u16;
    assert(mode_of(nb) == 1 && os_of(nb) == os_of(bits) && mux_of(nb) == mux_of(bits) && pga_of(nb)
        == pga_of(bits) && dr_of(nb) == dr_of(bits) && comp_of(nb) == comp_of(bits))
        by (bit_vector)
        requires
            nb == bits | 0x100u16,
    ;
}

/// Clearing the operating-mode bit makes it zero and keeps every other field.
pub proof fn lemma_mode_low(bits: u16)
    ensures
        (Config { bits: bits & !OP_MODE }).fields() == (ConfigFields {
            mode: 0,
            ..(Config { bits }).fields()
        }),
{
    let nb = bits & !0x100u16;
    assert(mode_of(nb) == 0 && os_of(nb) == os_of(bits) && mux_of(nb) == mux_of(bits) && pga_of(nb)
        == pga_of(bits) && dr_of(nb) == dr_of(bits) && comp_of(nb) == comp_of(bits))
        by (bit_vector)
        requires
            nb == bits & !0x100u16,
    ;
}

} // verus!
