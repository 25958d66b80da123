//! Driver for an 8-bit ADC/DAC chip on a two-wire serial bus.
//!
//! The chip is driven through two-byte command transactions (a control byte
//! and a data byte). Its converter answers one transaction late, so reading a
//! channel takes two identical transactions; the driver encapsulates that
//! protocol behind a lock-guarded, cloneable handle.

mod analog_in;
mod analog_out;
mod bus;
mod pcf8591;
mod scripted;

pub use bus::BusTxn;
pub use bus::I2cTransport;
pub use bus::appended_one;
pub use bus::appended_two;
pub use bus::bus_frame;

pub use pcf8591::Config;
pub use pcf8591::DevicePred;
pub use pcf8591::Inner;
pub use pcf8591::PCF8591;
pub use pcf8591::PCFADCNum;
pub use pcf8591::MAX_REFERENCE_MILLIVOLTS;
pub use pcf8591::MIN_REFERENCE_MILLIVOLTS;
pub use pcf8591::PCF8591_DEFAULT_ADDRESS;
pub use pcf8591::PCF8591_ENABLE_DAC;
pub use pcf8591::channel_bits;
pub use pcf8591::command_byte;
pub use pcf8591::enable_bit;
pub use pcf8591::lemma_command_byte_fields;

pub use analog_in::AnalogIn;
pub use analog_in::microvolts;
pub use analog_in::raw_to_value;
pub use analog_in::scaled;
pub use analog_in::value_to_microvolts;

pub use analog_out::AnalogOut;
pub use analog_out::Pin;
pub use analog_out::Pin as OutPin;
pub use analog_out::lemma_scale_round_trip;
pub use analog_out::register_of;
pub use analog_out::value_to_register;

pub use scripted::BusFault;
pub use scripted::BusStep;
pub use scripted::ScriptedBus;
