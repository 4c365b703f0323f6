//! Register-level driver for the BQ24195 single-cell battery charger, on a
//! blocking I2C bus at address `0x6B`.
//!
//! - [`codec`]: the typed values of the register fields and their bit patterns.
//! - [`registers`]: the registers as bytes with named fields, and their power-on
//!   defaults.
//! - [`transport`]: the driver, which writes and reads whole register bytes.
//! - [`bits`]: the bit ranges that the fields occupy.

pub mod bits;
pub mod codec;
pub mod registers;
pub mod transport;

pub use codec::{
    BatteryFault, ChargeFault, ChargeStatus, ChargerConfiguration, DpmStatus, InputCurrentLimit,
    InputVoltageLimit, MinimumSystemVoltage, PowerStatus, ThermalStatus, ThermistorFault,
    VbusStatus, VsysStatus, Watchdog,
};
pub use registers::{
    Fault, InputSourceControl, MiscOperationControl, PowerOnConfiguration, SystemStatus,
};
pub use transport::{bus_result, Bq24195, Error, I2cWrite, I2cWriteRead, Register, Transaction, ADDRESS};
