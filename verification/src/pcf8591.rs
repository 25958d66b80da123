//! The chip driver: command-byte encoding, the two-phase read protocol, and
//! the lock-guarded shared device state.

use vstd::prelude::*;
use vstd::rwlock::{RwLock, RwLockPredicate};
use std::sync::Arc;

use crate::bus::{BusTxn, I2cTransport, appended_one, appended_two};

verus! {

/// The default bus address of the chip (all address pins tied to ground).
pub const PCF8591_DEFAULT_ADDRESS: u8 = 0x48;

/// Control-byte bit that keeps the output stage (the DAC) active.
pub const PCF8591_ENABLE_DAC: u8 = 0x40;

/// Smallest reference voltage the chip's comparator supports, in millivolts.
pub const MIN_REFERENCE_MILLIVOLTS: u16 = 2500;

/// Largest reference voltage the chip's comparator supports, in millivolts.
pub const MAX_REFERENCE_MILLIVOLTS: u16 = 6000;

/// The four selectable analog input channels of the chip.
#[derive(Copy, Clone, Eq, PartialEq, Ord, PartialOrd, Hash, Structural)]
pub enum PCFADCNum {
    A0,
    A1,
    A2,
    A3,
}

/// The channel-select value carried in bits 0–1 of a control byte.
pub open spec fn channel_bits(adc: PCFADCNum) -> u8 {
    match adc {
        PCFADCNum::A0 => 0,
        PCFADCNum::A1 => 1,
        PCFADCNum::A2 => 2,
        PCFADCNum::A3 => 3,
    }
}

/// The output-enable bit of a control byte: set exactly when the output
/// stage is enabled.
pub open spec fn enable_bit(enabled: bool) -> u8 {
    if enabled {
        PCF8591_ENABLE_DAC
    } else {
        0
    }
}

/// The control byte a read of `adc` sends: the output-enable bit or'd with
/// the channel-select bits.
pub open spec fn command_byte(enabled: bool, adc: PCFADCNum) -> u8 {
    enable_bit(enabled) | channel_bits(adc)
}

impl PCFADCNum {
    /// The numeric index of this channel, 0 through 3.
    pub fn index(self) -> (b: u8)
        ensures
            b == channel_bits(self),
    {
        match self {
            PCFADCNum::A0 => 0,
            PCFADCNum::A1 => 1,
            PCFADCNum::A2 => 2,
            PCFADCNum::A3 => 3,
        }
    }
}

/// Law: for every channel selection and output state, bits 0–1 of the
/// control byte equal the channel's numeric value, bit 6 equals the
/// output-enable state, and every other bit is zero.
pub proof fn lemma_command_byte_fields(enabled: bool, adc: PCFADCNum)
    ensures
        command_byte(enabled, adc) & 0x03 == channel_bits(adc),
        command_byte(enabled, adc) & PCF8591_ENABLE_DAC == enable_bit(enabled),
        command_byte(enabled, adc) & 0xbc == 0,
{
    lemma_disjoint_or_fields(enable_bit(enabled), channel_bits(adc));
}

proof fn lemma_disjoint_or_fields(e: u8, x: u8)
    by (bit_vector)
    requires
        e == 0 || e == 0x40,
        x <= 3,
    ensures
        (e | x) & 0x03 == x,
        (e | x) & 0x40 == e,
        (e | x) & 0xbc == 0,
{
}

/// Immutable-after-construction device settings, validated once at creation.
#[derive(Debug, Clone, Copy, PartialEq, Eq, Structural)]
pub struct Config {
    /// The bus address to talk to.
    pub address: u8,
    /// The voltage, in millivolts, that a full-scale converted value stands
    /// for. Must lie in the chip's supported comparator range.
    pub reference_voltage: u16,
}

impl Config {
    /// Whether the reference voltage lies in the chip's supported range.
    pub open spec fn valid(self) -> bool {
        MIN_REFERENCE_MILLIVOLTS <= self.reference_voltage
            <= MAX_REFERENCE_MILLIVOLTS
    }
}

impl Default for Config {
    /// The chip's documented ground-strapped address, and a 3.3 V reference.
    fn default() -> (c: Self)
        ensures
            c.address == PCF8591_DEFAULT_ADDRESS,
            c.reference_voltage == 3300,
            c.valid(),
    {
        Config { address: PCF8591_DEFAULT_ADDRESS, reference_voltage: 3300 }
    }
}

/// The chip's working state: the transaction capability, the settings, and
/// the output stage's enable flag and register value. Mutated only while the
/// device lock is held.
pub struct Inner<C: I2cTransport> {
    /// The bus transaction capability, exclusively owned.
    pub channel: C,
    /// The device settings, fixed at construction.
    pub config: Config,
    /// True only while the output stage is meant to drive its pin. Reflects
    /// driver-side intent, not physically read-back chip state.
    pub dac_enabled: bool,
    /// The last successfully written output byte, or 0 if none yet: every
    /// transaction must retransmit it so a read does not disturb the output.
    pub dac_val: u8,
}

impl<C: I2cTransport> Inner<C> {
    /// Whether this state is well formed: the settings are in range.
    pub open spec fn wf(self) -> bool {
        self.config.valid()
    }

    /// Writes `value` to the output register: sends the control byte for the
    /// current enable state together with `value`, and records `value` as
    /// the register's content only once the transaction has succeeded.
    pub fn write(&mut self, value: u8) -> (r: Result<(), C::Error>)
        ensures
            final(self).config == old(self).config,
            final(self).dac_enabled == old(self).dac_enabled,
            r is Ok ==> final(self).dac_val == value && appended_one(
                old(self).channel.log(),
                final(self).channel.log(),
                old(self).config.address,
                enable_bit(old(self).dac_enabled),
                value,
            ),
            r is Err ==> final(self).dac_val == old(self).dac_val
                && final(self).channel.log() == old(self).channel.log(),
    {
        let control: u8 = if self.dac_enabled {
            PCF8591_ENABLE_DAC
        } else {
            0
        };
        let command: [u8; 2] = [control, value];
        let mut buffer: [u8; 2] = [0, 0];
        let ghost pre = self.channel.log();
        match self.channel.transact(self.config.address, &command, &mut buffer) {
            Ok(()) => {
                self.dac_val = value;
                proof {
                    assert(self.channel.log().subrange(0, pre.len() as int) =~= pre);
                }
                Ok(())
            },
            Err(e) => Err(e),
        }
    }

    /// Performs the two-phase read of `adc`: two transactions with identical
    /// command bytes, where the first triggers the conversion and its reply
    /// is discarded, and the second's reply is the converted value returned.
    /// If either phase fails the whole read fails with no partial result.
    pub fn read(&mut self, adc: PCFADCNum) -> (r: Result<u8, C::Error>)
        ensures
            final(self).config == old(self).config,
            final(self).dac_enabled == old(self).dac_enabled,
            final(self).dac_val == old(self).dac_val,
            r matches Ok(v) ==> appended_two(
                old(self).channel.log(),
                final(self).channel.log(),
                old(self).config.address,
                command_byte(old(self).dac_enabled, adc),
                old(self).dac_val,
            ) && v == final(self).channel.log().last().reply1,
            r is Err ==> final(self).channel.log() == old(self).channel.log()
                || appended_one(
                    old(self).channel.log(),
                    final(self).channel.log(),
                    old(self).config.address,
                    command_byte(old(self).dac_enabled, adc),
                    old(self).dac_val,
                ),
    {
        let ghost pre = self.channel.log();
        // first trigger the measurement
        match self.half_read(adc) {
            Ok(_) => {},
            Err(e) => {
                return Err(e);
            },
        }
        let ghost mid = self.channel.log();
        // then communicate again to get the actual result
        let r = self.half_read(adc);
        proof {
            if r is Ok {
                let post = self.channel.log();
                assert(post.subrange(0, pre.len() as int) =~= pre);
                assert(post[pre.len() as int] == mid[pre.len() as int]);
            }
        }
        r
    }

    /// One phase of a read: a single transaction whose control byte selects
    /// `adc` and whose data byte replays the current output value, returning
    /// the reply byte.
    fn half_read(&mut self, adc: PCFADCNum) -> (r: Result<u8, C::Error>)
        ensures
            final(self).config == old(self).config,
            final(self).dac_enabled == old(self).dac_enabled,
            final(self).dac_val == old(self).dac_val,
            r matches Ok(v) ==> appended_one(
                old(self).channel.log(),
                final(self).channel.log(),
                old(self).config.address,
                command_byte(old(self).dac_enabled, adc),
                old(self).dac_val,
            ) && v == final(self).channel.log().last().reply1,
            r is Err ==> final(self).channel.log() == old(self).channel.log(),
    {
        let control: u8 = if self.dac_enabled {
            PCF8591_ENABLE_DAC
        } else {
            0
        } | adc.index();
        let command: [u8; 2] = [control, self.dac_val];
        let mut buffer: [u8; 2] = [0, 0];
        let ghost pre = self.channel.log();
        match self.channel.transact(self.config.address, &command, &mut buffer) {
            Ok(()) => {
                proof {
                    assert(self.channel.log().subrange(0, pre.len() as int) =~= pre);
                }
                Ok(buffer[1])
            },
            Err(e) => Err(e),
        }
    }

    /// Sets the output stage's enable flag, then issues one transaction that
    /// replays the current output value so the physical control byte
    /// reflects the new state without changing the analog level. The flag
    /// records driver intent even when the transaction fails.
    pub fn set_dac_enabled(&mut self, enabled: bool) -> (r: Result<(), C::Error>)
        ensures
            final(self).config == old(self).config,
            final(self).dac_enabled == enabled,
            final(self).dac_val == old(self).dac_val,
            r is Ok ==> appended_one(
                old(self).channel.log(),
                final(self).channel.log(),
                old(self).config.address,
                enable_bit(enabled),
                old(self).dac_val,
            ),
            r is Err ==> final(self).channel.log() == old(self).channel.log(),
    {
        self.dac_enabled = enabled;
        let val = self.dac_val;
        self.write(val)
    }
}

/// The invariant the device lock maintains: the guarded state carries the
/// settings the lock was created with, and they are in range.
pub struct DevicePred {
    /// The bus address every handle agrees on.
    pub address: u8,
    /// The reference voltage, in millivolts, every handle agrees on.
    pub reference_voltage: u16,
}

impl<C: I2cTransport> RwLockPredicate<Inner<C>> for DevicePred {
    open spec fn inv(self, v: Inner<C>) -> bool {
        &&& v.config.address == self.address
        &&& v.config.reference_voltage == self.reference_voltage
        &&& v.wf()
    }
}

/// Relies on std::sync::Arc::clone: the returned pointer shares the same
/// allocation, so it equals the one cloned.
#[verifier::external_body]
fn arc_clone<T>(a: &Arc<T>) -> (r: Arc<T>)
    ensures
        r == *a,
{
    Arc::clone(a)
}

/// Relies on std::sync::Arc::try_unwrap: when this is the sole pointer it
/// returns the inner value, otherwise it returns the pointer untouched.
/// Which case occurs depends on the reference count, so nothing promises
/// success.
#[verifier::external_body]
fn arc_try_unwrap<T>(a: Arc<T>) -> (r: Result<T, Arc<T>>)
    ensures
        match r {
            Ok(t) => t == a,
            Err(e) => e == a,
        },
{
    Arc::try_unwrap(a)
}

/// A cheaply cloned, shared handle to one chip. Every operation acquires the
/// device lock for its whole duration, so transactions from different
/// handles never interleave on the bus; in particular both phases of a
/// two-phase read happen under one acquisition.
pub struct PCF8591<C: I2cTransport> {
    inner: Arc<RwLock<Inner<C>, DevicePred>>,
}

impl<C: I2cTransport> PCF8591<C> {
    /// The bus address this handle talks to.
    pub closed spec fn spec_address(&self) -> u8 {
        self.inner.pred().address
    }

    /// The reference voltage, in millivolts, this handle was created with.
    pub closed spec fn spec_reference_voltage(&self) -> u16 {
        self.inner.pred().reference_voltage
    }

    /// Whether this handle's settings are in the chip's supported range.
    /// Holds of every handle: the constructors validate the settings once.
    #[verifier::type_invariant]
    pub open spec fn wf(&self) -> bool {
        MIN_REFERENCE_MILLIVOLTS <= self.spec_reference_voltage()
            <= MAX_REFERENCE_MILLIVOLTS
    }

    /// Creates a driver for a chip at the default address with a 3.3 V
    /// reference, using the given transaction capability.
    pub fn new(channel: C) -> (d: Self)
        ensures
            d.spec_address() == PCF8591_DEFAULT_ADDRESS,
            d.spec_reference_voltage() == 3300,
            d.wf(),
    {
        Self::with_config(channel, Config::default())
    }

    /// Creates a driver using the given transaction capability and settings.
    /// The reference voltage must lie in the chip's supported range; the
    /// output stage starts disabled with an output value of 0.
    pub fn with_config(channel: C, config: Config) -> (d: Self)
        requires
            config.valid(),
        ensures
            d.spec_address() == config.address,
            d.spec_reference_voltage() == config.reference_voltage,
            d.wf(),
    {
        let ghost pred = DevicePred {
            address: config.address,
            reference_voltage: config.reference_voltage,
        };
        let inner = Inner { channel, config, dac_enabled: false, dac_val: 0 };
        PCF8591 { inner: Arc::new(RwLock::new(inner, Ghost(pred))) }
    }

    /// Enables the output stage when `true`, or sets it to high impedance
    /// when `false`, issuing exactly one transaction that replays the
    /// current output value under the new enable state; the contract is
    /// stated on [`Inner::set_dac_enabled`], which this drives under the
    /// lock.
    pub fn set_dac_enabled(&self, enabled: bool) -> (r: Result<(), C::Error>) {
        let (mut inner, handle) = self.inner.acquire_write();
        let r = inner.set_dac_enabled(enabled);
        handle.release_write(inner);
        r
    }

    /// Whether the output stage was enabled when the lock was sampled.
    pub fn dac_enabled(&self) -> bool {
        let handle = self.inner.acquire_read();
        let enabled = handle.borrow().dac_enabled;
        handle.release_read();
        enabled
    }

    /// The reference voltage, in millivolts, that a full-scale converted
    /// value stands for.
    pub fn reference_voltage(&self) -> (v: u16)
        ensures
            v == self.spec_reference_voltage(),
    {
        let handle = self.inner.acquire_read();
        let v = handle.borrow().config.reference_voltage;
        handle.release_read();
        v
    }

    /// Reads one converted value from the given channel, holding the lock
    /// across both phases of the two-phase read. What the operation does to
    /// the device state and the bus is stated on [`Inner::read`], which this
    /// drives under the lock; no handle can observe that state unlocked, so
    /// nothing weaker and nothing stronger can be said here.
    pub fn read(&self, adc: PCFADCNum) -> (r: Result<u8, C::Error>) {
        let (mut inner, handle) = self.inner.acquire_write();
        let r = inner.read(adc);
        handle.release_write(inner);
        r
    }

    /// Writes a byte to the output register: 0 is ground and 255 is the
    /// reference voltage. The contract is stated on [`Inner::write`], which
    /// this drives under the lock.
    pub fn write(&self, value: u8) -> (r: Result<(), C::Error>) {
        let (mut inner, handle) = self.inner.acquire_write();
        let r = inner.write(value);
        handle.release_write(inner);
        r
    }

    /// Consumes the driver, returning the underlying transaction capability
    /// when this was the last handle, or the handle unchanged when the chip
    /// is still shared.
    pub fn into_inner(self) -> (r: Result<C, Self>)
        ensures
            r matches Err(d) ==> d == self,
    {
        proof {
            use_type_invariant(&self);
        }
        match arc_try_unwrap(self.inner) {
            Ok(lock) => Ok(lock.into_inner().channel),
            Err(inner) => Err(PCF8591 { inner }),
        }
    }
}

impl<C: I2cTransport> Clone for PCF8591<C> {
    /// Another handle to the same chip: cloning shares the device state and
    /// its lock, it does not duplicate the transaction capability.
    fn clone(&self) -> (r: Self)
        ensures
            r == *self,
    {
        proof {
            use_type_invariant(self);
        }
        PCF8591 { inner: arc_clone(&self.inner) }
    }
}

} // verus!
