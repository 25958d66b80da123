//! The analog-input façade: reads a fixed channel through a device handle
//! and scales the 8-bit conversion to a 16-bit value or to microvolts.

use vstd::prelude::*;

use crate::pcf8591::{PCF8591, PCFADCNum, MAX_REFERENCE_MILLIVOLTS};
use crate::bus::I2cTransport;

verus! {

/// An 8-bit conversion widened to the 16-bit range: the byte becomes the
/// upper 8 bits and the lower 8 bits are zero.
pub open spec fn scaled(raw: u8) -> u16 {
    (raw as u16) << 8
}

/// A 16-bit reading as microvolts: the reading as a fraction of the
/// full-scale value 65535, times the reference voltage in millivolts, times
/// the thousand microvolts per millivolt, rounded down.
pub open spec fn microvolts(value: u16, reference_voltage: u16) -> int {
    (value * reference_voltage * 1000) / 65535
}

proof fn lemma_scaled_bits(raw: u8)
    by (bit_vector)
    ensures
        ((raw as u16) << 8) % 256 == 0,
        ((raw as u16) << 8) >> 8 == raw as u16,
        (raw as u16) << 8 == (raw as u16) * 256,
{
}

/// Widens an 8-bit conversion to the 16-bit range shared with the output
/// façade: only the upper 8 bits carry information.
pub fn raw_to_value(raw: u8) -> (v: u16)
    ensures
        v == scaled(raw),
        v % 256 == 0,
        v == raw as int * 256,
{
    proof {
        lemma_scaled_bits(raw);
    }
    (raw as u16) << 8
}

/// Scales a 16-bit reading to microvolts against the given reference
/// voltage, which must lie in the chip's supported range.
pub fn value_to_microvolts(value: u16, reference_voltage: u16) -> (uv: u32)
    requires
        reference_voltage <= MAX_REFERENCE_MILLIVOLTS,
    ensures
        uv == microvolts(value, reference_voltage),
        uv <= 6_000_000,
{
    proof {
        assert(value * reference_voltage <= 65535 * 6000) by (nonlinear_arith)
            requires
                value <= 65535,
                reference_voltage <= 6000,
        ;
    }
    let product: u64 = (value as u64) * (reference_voltage as u64);
    let wide: u64 = product * 1000;
    proof {
        assert(wide / 65535 <= 6_000_000) by (nonlinear_arith)
            requires
                wide <= 393_210_000_000u64,
        ;
    }
    (wide / 65535) as u32
}

/// Reads one input channel of one chip, returning raw readings or voltages.
/// Every call is a fresh two-phase read through the shared handle; the
/// façade itself holds no state beyond the handle and the channel.
pub struct AnalogIn<C: I2cTransport> {
    pcf: PCF8591<C>,
    channel: PCFADCNum,
}

impl<C: I2cTransport> AnalogIn<C> {
    /// The handle this façade reads through.
    pub closed spec fn spec_pcf(&self) -> PCF8591<C> {
        self.pcf
    }

    /// The channel this façade reads.
    pub closed spec fn spec_channel(&self) -> PCFADCNum {
        self.channel
    }

    /// A façade that reads `channel` through `pcf`.
    pub fn new(pcf: PCF8591<C>, channel: PCFADCNum) -> (r: Self)
        ensures
            r.spec_pcf() == pcf,
            r.spec_channel() == channel,
    {
        AnalogIn { pcf, channel }
    }

    /// Reads the channel and widens the conversion to 16 bits: the lower 8
    /// bits of a successful reading are always zero.
    pub fn value(&self) -> (r: Result<u16, C::Error>)
        ensures
            r matches Ok(v) ==> v % 256 == 0 && (exists|raw: u8| v == scaled(raw)),
    {
        match self.pcf.read(self.channel) {
            Ok(raw) => Ok(raw_to_value(raw)),
            Err(e) => Err(e),
        }
    }

    /// Reads the channel as microvolts: a successful result is exactly some
    /// widened 8-bit conversion scaled against the configured reference
    /// voltage, and never exceeds that reference voltage.
    pub fn voltage(&self) -> (r: Result<u32, C::Error>)
        ensures
            r matches Ok(uv) ==> (exists|raw: u8|
                uv == microvolts(scaled(raw), self.spec_pcf().spec_reference_voltage()))
                && uv <= 6_000_000,
    {
        proof {
            use_type_invariant(&self.pcf);
        }
        match self.value() {
            Ok(v) => {
                let rv = self.pcf.reference_voltage();
                let uv = value_to_microvolts(v, rv);
                proof {
                    let raw = choose|raw: u8| v == scaled(raw);
                    assert(uv == microvolts(scaled(raw), self.spec_pcf().spec_reference_voltage()));
                }
                Ok(uv)
            },
            Err(e) => Err(e),
        }
    }

    /// The reference voltage, in millivolts, of the chip this façade reads.
    pub fn reference_voltage(&self) -> (v: u16)
        ensures
            v == self.spec_pcf().spec_reference_voltage(),
    {
        self.pcf.reference_voltage()
    }
}

} // verus!
