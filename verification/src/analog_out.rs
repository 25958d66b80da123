//! The analog-output façade: enables the output stage on construction,
//! writes scaled 16-bit values to the 8-bit output register, and disables
//! the stage again on an explicit release.

use vstd::prelude::*;

use crate::analog_in::scaled;
use crate::pcf8591::PCF8591;
use crate::bus::I2cTransport;

verus! {

/// The output pin a façade drives. The chip has a single output channel;
/// the enumeration is kept for variants with more than one.
#[derive(Debug, Clone, Copy, PartialEq, Eq, Structural)]
pub enum Pin {
    Default,
}

/// The output-register byte a 16-bit value maps to: its upper 8 bits. The
/// lower 8 bits are discarded, since the output resolution is 8 bits.
pub open spec fn register_of(value: u16) -> u8 {
    (value >> 8) as u8
}

/// Narrows a 16-bit output value to the 8-bit register byte it maps to.
pub fn value_to_register(value: u16) -> (b: u8)
    ensures
        b == register_of(value),
        b as int * 256 <= value,
{
    proof {
        lemma_register_bits(value);
    }
    (value >> 8) as u8
}

/// Law: narrowing a widened 8-bit conversion gives the byte back; the input
/// and output façades agree on which 8 bits of the shared 16-bit range
/// carry information.
pub proof fn lemma_scale_round_trip(raw: u8)
    ensures
        register_of(scaled(raw)) == raw,
{
    assert((((raw as u16) << 8) >> 8) as u8 == raw) by (bit_vector);
}

proof fn lemma_register_bits(value: u16)
    by (bit_vector)
    ensures
        ((value >> 8) as u8) as u16 == value >> 8,
        (value >> 8) * 256 <= value,
{
}

/// Exclusive write intent for the output stage of one chip. Constructing
/// the façade enables the stage, so a façade in hand means the stage has
/// been commanded on; it is commanded off again by [`AnalogOut::release`].
pub struct AnalogOut<C: I2cTransport> {
    pcf: PCF8591<C>,
    value: u16,
    _pin: Pin,
}

impl<C: I2cTransport> AnalogOut<C> {
    /// The handle this façade writes through.
    pub closed spec fn spec_pcf(&self) -> PCF8591<C> {
        self.pcf
    }

    /// The last 16-bit value set through this façade, or 0 if none yet.
    pub closed spec fn spec_value(&self) -> u16 {
        self.value
    }

    /// The pin this façade drives.
    pub closed spec fn spec_pin(&self) -> Pin {
        self._pin
    }

    /// Enables the output stage of `pcf` and hands out the façade; when the
    /// enable transaction fails, the façade is not created and the error is
    /// returned instead.
    pub fn new(pcf: PCF8591<C>, pin: Pin) -> (r: Result<Self, C::Error>)
        ensures
            r matches Ok(f) ==> f.spec_pcf() == pcf && f.spec_value() == 0
                && f.spec_pin() == pin,
    {
        match pcf.set_dac_enabled(true) {
            Ok(()) => Ok(AnalogOut { pcf, _pin: pin, value: 0 }),
            Err(e) => Err(e),
        }
    }

    /// The last 16-bit value set through this façade, or 0 if none yet.
    pub fn value(&self) -> (v: u16)
        ensures
            v == self.spec_value(),
    {
        self.value
    }

    /// Writes the upper 8 bits of `new_value` to the output register: 0 is
    /// ground and 65535 is the reference voltage. The recorded value
    /// changes to `new_value` only when the transaction succeeds.
    pub fn set_value(&mut self, new_value: u16) -> (r: Result<(), C::Error>)
        ensures
            final(self).spec_pcf() == old(self).spec_pcf(),
            final(self).spec_pin() == old(self).spec_pin(),
            r is Ok ==> final(self).spec_value() == new_value,
            r is Err ==> final(self).spec_value() == old(self).spec_value(),
    {
        // scale down to 8 bit
        let to_write = value_to_register(new_value);
        match self.pcf.write(to_write) {
            Ok(()) => {
                self.value = new_value;
                Ok(())
            },
            Err(e) => Err(e),
        }
    }

    /// Disables the output stage and gives the handle back. The disable is
    /// best effort: its failure is not propagated, only reported in the
    /// returned flag, and on failure the stage may stay physically enabled.
    pub fn release(self) -> (r: (PCF8591<C>, bool))
        ensures
            r.0 == self.spec_pcf(),
    {
        let AnalogOut { pcf, value: _, _pin: _ } = self;
        let disabled = match pcf.set_dac_enabled(false) {
            Ok(()) => true,
            Err(_) => false,
        };
        (pcf, disabled)
    }
}

} // verus!
