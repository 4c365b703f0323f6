//! The charger's registers: one byte each, read and written by named fields.
//!
//! A register value holds its byte as it is; each field is a bit range of it.
//! Setting a field rewrites that range alone.

use crate::bits::{
    bit_range_of, get_bit_range, lemma_low_bits_values, lemma_write_bit_range, set_bit_range,
    with_bit_range,
};
use crate::codec::{
    lemma_decode_encode, BatteryFault, ChargeFault, ChargeStatus, ChargerConfiguration, DpmStatus,
    InputCurrentLimit, InputVoltageLimit, MinimumSystemVoltage, PowerStatus, ThermalStatus,
    ThermistorFault, VbusStatus, VsysStatus, Watchdog,
};
use vstd::prelude::*;

verus! {

/// The pattern of a one-bit flag.
pub open spec fn flag_bits(v: bool) -> u8 {
    if v {
        1
    } else {
        0
    }
}

fn flag_byte(v: bool) -> (r: u8)
    ensures
        r == flag_bits(v),
{
    if v {
        1
    } else {
        0
    }
}

/// Input source control register (address `0x00`).
#[derive(Clone, Copy, Debug, PartialEq, Eq, Structural)]
pub struct InputSourceControl(u8);

impl View for InputSourceControl {
    type V = u8;

    /// The register's byte.
    closed spec fn view(&self) -> u8 {
        self.0
    }
}

impl InputSourceControl {
    /// High-impedance mode: the input is cut off from the system, bit 7.
    pub open spec fn spec_hiz(&self) -> bool {
        bit_range_of(self@, 7, 7) != 0
    }

    /// Input voltage limit, bits 6..=3.
    pub open spec fn spec_input_voltage_limit(&self) -> InputVoltageLimit {
        InputVoltageLimit::spec_from_bits(bit_range_of(self@, 6, 3))
    }

    /// Input current limit, bits 2..=0.
    pub open spec fn spec_input_current_limit(&self) -> InputCurrentLimit {
        InputCurrentLimit::spec_from_bits(bit_range_of(self@, 2, 0))
    }

    /// The register holding `raw` as it is.
    pub fn from_raw(raw: u8) -> (r: Self)
        ensures
            r@ == raw,
    {
        InputSourceControl(raw)
    }

    /// The register's byte.
    pub fn raw(&self) -> (r: u8)
        ensures
            r == self@,
    {
        self.0
    }

    /// High-impedance mode: the input is cut off from the system.
    pub fn hiz(&self) -> (r: bool)
        ensures
            r == self.spec_hiz(),
    {
        get_bit_range(self.0, 7, 7) != 0
    }

    /// Input voltage limit.
    pub fn input_voltage_limit(&self) -> (r: InputVoltageLimit)
        ensures
            r == self.spec_input_voltage_limit(),
    {
        InputVoltageLimit::from(get_bit_range(self.0, 6, 3))
    }

    /// Input current limit.
    pub fn input_current_limit(&self) -> (r: InputCurrentLimit)
        ensures
            r == self.spec_input_current_limit(),
    {
        InputCurrentLimit::from(get_bit_range(self.0, 2, 0))
    }

    /// Sets the field `hiz`; the other bits stay as they are.
    pub fn set_hiz(&mut self, value: bool)
        ensures
            final(self)@ == with_bit_range(old(self)@, 7, 7, flag_bits(value)),
            final(self).spec_hiz() == value,
            final(self).spec_input_voltage_limit() == old(self).spec_input_voltage_limit(),
            final(self).spec_input_current_limit() == old(self).spec_input_current_limit(),
    {
        proof {
            lemma_low_bits_values();
            lemma_decode_encode();
            lemma_write_bit_range(self.0, 7, 7, flag_bits(value));
        }
        set_bit_range(&mut self.0, 7, 7, flag_byte(value));
    }

    /// Sets the field `input_voltage_limit`; the other bits stay as they are.
    pub fn set_input_voltage_limit(&mut self, value: InputVoltageLimit)
        ensures
            final(self)@ == with_bit_range(old(self)@, 6, 3, value.spec_bits()),
            final(self).spec_input_voltage_limit() == value,
            final(self).spec_hiz() == old(self).spec_hiz(),
            final(self).spec_input_current_limit() == old(self).spec_input_current_limit(),
    {
        proof {
            lemma_low_bits_values();
            lemma_decode_encode();
            lemma_write_bit_range(self.0, 6, 3, value.spec_bits());
        }
        set_bit_range(&mut self.0, 6, 3, u8::from(value));
    }

    /// Sets the field `input_current_limit`; the other bits stay as they are.
    pub fn set_input_current_limit(&mut self, value: InputCurrentLimit)
        ensures
            final(self)@ == with_bit_range(old(self)@, 2, 0, value.spec_bits()),
            final(self).spec_input_current_limit() == value,
            final(self).spec_hiz() == old(self).spec_hiz(),
            final(self).spec_input_voltage_limit() == old(self).spec_input_voltage_limit(),
    {
        proof {
            lemma_low_bits_values();
            lemma_decode_encode();
            lemma_write_bit_range(self.0, 2, 0, value.spec_bits());
        }
        set_bit_range(&mut self.0, 2, 0, u8::from(value));
    }
}

impl Default for InputSourceControl {
    /// High impedance off, 4.36 V input voltage limit, 100 mA input current limit.
    fn default() -> (r: Self)
        ensures
            r@ == 0b0011_0000,
            r.spec_hiz() == false,
            r.spec_input_voltage_limit() == InputVoltageLimit::V4_36,
            r.spec_input_current_limit() == InputCurrentLimit::MA100,
    {
        let mut reg = InputSourceControl(0);
        reg.set_hiz(false);
        reg.set_input_voltage_limit(InputVoltageLimit::V4_36);
        reg.set_input_current_limit(InputCurrentLimit::MA100);
        assert(with_bit_range(with_bit_range(with_bit_range(0u8, 7, 7, 0u8), 6, 3, 6u8), 2, 0, 0u8)
            == 0b0011_0000) by (bit_vector);
        reg
    }
}

/// Power-on configuration register (address `0x01`). Bit 0 is reserved and
/// the chip wants it set.
#[derive(Clone, Copy, Debug, PartialEq, Eq, Structural)]
pub struct PowerOnConfiguration(u8);

impl View for PowerOnConfiguration {
    type V = u8;

    /// The register's byte.
    closed spec fn view(&self) -> u8 {
        self.0
    }
}

impl PowerOnConfiguration {
    /// Resets all registers to the chip's own defaults, bit 7.
    pub open spec fn spec_register_reset(&self) -> bool {
        bit_range_of(self@, 7, 7) != 0
    }

    /// Resets the watchdog timer, bit 6.
    pub open spec fn spec_watchdog_reset(&self) -> bool {
        bit_range_of(self@, 6, 6) != 0
    }

    /// Charger configuration, bits 5..=4.
    pub open spec fn spec_charger_configuration(&self) -> ChargerConfiguration {
        ChargerConfiguration::spec_from_bits(bit_range_of(self@, 5, 4))
    }

    /// Minimum system voltage limit, bits 3..=1.
    pub open spec fn spec_minimum_system_voltage(&self) -> MinimumSystemVoltage {
        MinimumSystemVoltage::spec_from_bits(bit_range_of(self@, 3, 1))
    }

    /// The register holding `raw` as it is.
    pub fn from_raw(raw: u8) -> (r: Self)
        ensures
            r@ == raw,
    {
        PowerOnConfiguration(raw)
    }

    /// The register's byte.
    pub fn raw(&self) -> (r: u8)
        ensures
            r == self@,
    {
        self.0
    }

    /// Resets all registers to the chip's own defaults.
    pub fn register_reset(&self) -> (r: bool)
        ensures
            r == self.spec_register_reset(),
    {
        get_bit_range(self.0, 7, 7) != 0
    }

    /// Resets the watchdog timer.
    pub fn watchdog_reset(&self) -> (r: bool)
        ensures
            r == self.spec_watchdog_reset(),
    {
        get_bit_range(self.0, 6, 6) != 0
    }

    /// Charger configuration.
    pub fn charger_configuration(&self) -> (r: ChargerConfiguration)
        ensures
            r == self.spec_charger_configuration(),
    {
        ChargerConfiguration::from(get_bit_range(self.0, 5, 4))
    }

    /// Minimum system voltage limit.
    pub fn minimum_system_voltage(&self) -> (r: MinimumSystemVoltage)
        ensures
            r == self.spec_minimum_system_voltage(),
    {
        MinimumSystemVoltage::from(get_bit_range(self.0, 3, 1))
    }

    /// Sets the field `register_reset`; the other bits stay as they are.
    pub fn set_reset(&mut self, value: bool)
        ensures
            final(self)@ == with_bit_range(old(self)@, 7, 7, flag_bits(value)),
            final(self).spec_register_reset() == value,
            final(self).spec_watchdog_reset() == old(self).spec_watchdog_reset(),
            final(self).spec_charger_configuration() == old(self).spec_charger_configuration(),
            final(self).spec_minimum_system_voltage() == old(self).spec_minimum_system_voltage(),
    {
        proof {
            lemma_low_bits_values();
            lemma_decode_encode();
            lemma_write_bit_range(self.0, 7, 7, flag_bits(value));
        }
        set_bit_range(&mut self.0, 7, 7, flag_byte(value));
    }

    /// Sets the field `watchdog_reset`; the other bits stay as they are.
    pub fn set_watchdog_reset(&mut self, value: bool)
        ensures
            final(self)@ == with_bit_range(old(self)@, 6, 6, flag_bits(value)),
            final(self).spec_watchdog_reset() == value,
            final(self).spec_register_reset() == old(self).spec_register_reset(),
            final(self).spec_charger_configuration() == old(self).spec_charger_configuration(),
            final(self).spec_minimum_system_voltage() == old(self).spec_minimum_system_voltage(),
    {
        proof {
            lemma_low_bits_values();
            lemma_decode_encode();
            lemma_write_bit_range(self.0, 6, 6, flag_bits(value));
        }
        set_bit_range(&mut self.0, 6, 6, flag_byte(value));
    }

    /// Sets the field `charger_configuration`; the other bits stay as they are.
    pub fn set_charger_configuration(&mut self, value: ChargerConfiguration)
        ensures
            final(self)@ == with_bit_range(old(self)@, 5, 4, value.spec_bits()),
            final(self).spec_charger_configuration() == value,
            final(self).spec_register_reset() == old(self).spec_register_reset(),
            final(self).spec_watchdog_reset() == old(self).spec_watchdog_reset(),
            final(self).spec_minimum_system_voltage() == old(self).spec_minimum_system_voltage(),
    {
        proof {
            lemma_low_bits_values();
            lemma_decode_encode();
            lemma_write_bit_range(self.0, 5, 4, value.spec_bits());
        }
        set_bit_range(&mut self.0, 5, 4, u8::from(value));
    }

    /// Sets the field `minimum_system_voltage`; the other bits stay as they are.
    pub fn set_minimum_system_voltage(&mut self, value: MinimumSystemVoltage)
        ensures
            final(self)@ == with_bit_range(old(self)@, 3, 1, value.spec_bits()),
            final(self).spec_minimum_system_voltage() == value,
            final(self).spec_register_reset() == old(self).spec_register_reset(),
            final(self).spec_watchdog_reset() == old(self).spec_watchdog_reset(),
            final(self).spec_charger_configuration() == old(self).spec_charger_configuration(),
    {
        proof {
            lemma_low_bits_values();
            lemma_decode_encode();
            lemma_write_bit_range(self.0, 3, 1, value.spec_bits());
        }
        set_bit_range(&mut self.0, 3, 1, u8::from(value));
    }
}

impl Default for PowerOnConfiguration {
    /// Reserved bit 0 set, battery charging on, 3.5 V minimum system voltage, no resets.
    fn default() -> (r: Self)
        ensures
            r@ == 0b0001_1011,
            r.spec_charger_configuration() == ChargerConfiguration::ChargeBattery,
            r.spec_minimum_system_voltage() == MinimumSystemVoltage::V3_5,
    {
        let mut reg = PowerOnConfiguration(0b0000_0001);
        reg.set_charger_configuration(ChargerConfiguration::ChargeBattery);
        reg.set_minimum_system_voltage(MinimumSystemVoltage::V3_5);
        assert(with_bit_range(with_bit_range(0b0000_0001u8, 5, 4, 1u8), 3, 1, 5u8)
            == 0b0001_1011) by (bit_vector);
        reg
    }
}

/// Misc operation control register (address `0x07`).
#[derive(Clone, Copy, Debug, PartialEq, Eq, Structural)]
pub struct MiscOperationControl(u8);

impl View for MiscOperationControl {
    type V = u8;

    /// The register's byte.
    closed spec fn view(&self) -> u8 {
        self.0
    }
}

impl MiscOperationControl {
    /// Forces D+/D- detection, bit 7.
    pub open spec fn spec_dpdm_detection(&self) -> bool {
        bit_range_of(self@, 7, 7) != 0
    }

    /// Slows the safety timer during dynamic power management or thermal regulation, bit 6.
    pub open spec fn spec_safety_timer_slowed(&self) -> bool {
        bit_range_of(self@, 6, 6) != 0
    }

    /// Turns the battery FET off, bit 5.
    pub open spec fn spec_battery_fet_disabled(&self) -> bool {
        bit_range_of(self@, 5, 5) != 0
    }

    /// Interrupts on a charge fault, bit 1.
    pub open spec fn spec_charge_fault_interrupt(&self) -> bool {
        bit_range_of(self@, 1, 1) != 0
    }

    /// Interrupts on a battery fault, bit 0.
    pub open spec fn spec_battery_fault_interrupt(&self) -> bool {
        bit_range_of(self@, 0, 0) != 0
    }

    /// The register holding `raw` as it is.
    pub fn from_raw(raw: u8) -> (r: Self)
        ensures
            r@ == raw,
    {
        MiscOperationControl(raw)
    }

    /// The register's byte.
    pub fn raw(&self) -> (r: u8)
        ensures
            r == self@,
    {
        self.0
    }

    /// Forces D+/D- detection.
    pub fn dpdm_detection(&self) -> (r: bool)
        ensures
            r == self.spec_dpdm_detection(),
    {
        get_bit_range(self.0, 7, 7) != 0
    }

    /// Slows the safety timer during dynamic power management or thermal regulation.
    pub fn safety_timer_slowed(&self) -> (r: bool)
        ensures
            r == self.spec_safety_timer_slowed(),
    {
        get_bit_range(self.0, 6, 6) != 0
    }

    /// Turns the battery FET off.
    pub fn battery_fet_disabled(&self) -> (r: bool)
        ensures
            r == self.spec_battery_fet_disabled(),
    {
        get_bit_range(self.0, 5, 5) != 0
    }

    /// Interrupts on a charge fault.
    pub fn charge_fault_interrupt(&self) -> (r: bool)
        ensures
            r == self.spec_charge_fault_interrupt(),
    {
        get_bit_range(self.0, 1, 1) != 0
    }

    /// Interrupts on a battery fault.
    pub fn battery_fault_interrupt(&self) -> (r: bool)
        ensures
            r == self.spec_battery_fault_interrupt(),
    {
        get_bit_range(self.0, 0, 0) != 0
    }

    /// Sets the field `dpdm_detection`; the other bits stay as they are.
    pub fn set_dpdm_detection(&mut self, value: bool)
        ensures
            final(self)@ == with_bit_range(old(self)@, 7, 7, flag_bits(value)),
            final(self).spec_dpdm_detection() == value,
            final(self).spec_safety_timer_slowed() == old(self).spec_safety_timer_slowed(),
            final(self).spec_battery_fet_disabled() == old(self).spec_battery_fet_disabled(),
            final(self).spec_charge_fault_interrupt() == old(self).spec_charge_fault_interrupt(),
            final(self).spec_battery_fault_interrupt() == old(self).spec_battery_fault_interrupt(),
    {
        proof {
            lemma_low_bits_values();
            lemma_decode_encode();
            lemma_write_bit_range(self.0, 7, 7, flag_bits(value));
        }
        set_bit_range(&mut self.0, 7, 7, flag_byte(value));
    }

    /// Sets the field `safety_timer_slowed`; the other bits stay as they are.
    pub fn set_safety_timer_slowed(&mut self, value: bool)
        ensures
            final(self)@ == with_bit_range(old(self)@, 6, 6, flag_bits(value)),
            final(self).spec_safety_timer_slowed() == value,
            final(self).spec_dpdm_detection() == old(self).spec_dpdm_detection(),
            final(self).spec_battery_fet_disabled() == old(self).spec_battery_fet_disabled(),
            final(self).spec_charge_fault_interrupt() == old(self).spec_charge_fault_interrupt(),
            final(self).spec_battery_fault_interrupt() == old(self).spec_battery_fault_interrupt(),
    {
        proof {
            lemma_low_bits_values();
            lemma_decode_encode();
            lemma_write_bit_range(self.0, 6, 6, flag_bits(value));
        }
        set_bit_range(&mut self.0, 6, 6, flag_byte(value));
    }

    /// Sets the field `battery_fet_disabled`; the other bits stay as they are.
    pub fn set_battery_fet_disabled(&mut self, value: bool)
        ensures
            final(self)@ == with_bit_range(old(self)@, 5, 5, flag_bits(value)),
            final(self).spec_battery_fet_disabled() == value,
            final(self).spec_dpdm_detection() == old(self).spec_dpdm_detection(),
            final(self).spec_safety_timer_slowed() == old(self).spec_safety_timer_slowed(),
            final(self).spec_charge_fault_interrupt() == old(self).spec_charge_fault_interrupt(),
            final(self).spec_battery_fault_interrupt() == old(self).spec_battery_fault_interrupt(),
    {
        proof {
            lemma_low_bits_values();
            lemma_decode_encode();
            lemma_write_bit_range(self.0, 5, 5, flag_bits(value));
        }
        set_bit_range(&mut self.0, 5, 5, flag_byte(value));
    }

    /// Sets the field `charge_fault_interrupt`; the other bits stay as they are.
    pub fn set_charge_fault_interrupt(&mut self, value: bool)
        ensures
            final(self)@ == with_bit_range(old(self)@, 1, 1, flag_bits(value)),
            final(self).spec_charge_fault_interrupt() == value,
            final(self).spec_dpdm_detection() == old(self).spec_dpdm_detection(),
            final(self).spec_safety_timer_slowed() == old(self).spec_safety_timer_slowed(),
            final(self).spec_battery_fet_disabled() == old(self).spec_battery_fet_disabled(),
            final(self).spec_battery_fault_interrupt() == old(self).spec_battery_fault_interrupt(),
    {
        proof {
            lemma_low_bits_values();
            lemma_decode_encode();
            lemma_write_bit_range(self.0, 1, 1, flag_bits(value));
        }
        set_bit_range(&mut self.0, 1, 1, flag_byte(value));
    }

    /// Sets the field `battery_fault_interrupt`; the other bits stay as they are.
    pub fn set_battery_fault_interrupt(&mut self, value: bool)
        ensures
            final(self)@ == with_bit_range(old(self)@, 0, 0, flag_bits(value)),
            final(self).spec_battery_fault_interrupt() == value,
            final(self).spec_dpdm_detection() == old(self).spec_dpdm_detection(),
            final(self).spec_safety_timer_slowed() == old(self).spec_safety_timer_slowed(),
            final(self).spec_battery_fet_disabled() == old(self).spec_battery_fet_disabled(),
            final(self).spec_charge_fault_interrupt() == old(self).spec_charge_fault_interrupt(),
    {
        proof {
            lemma_low_bits_values();
            lemma_decode_encode();
            lemma_write_bit_range(self.0, 0, 0, flag_bits(value));
        }
        set_bit_range(&mut self.0, 0, 0, flag_byte(value));
    }
}

impl Default for MiscOperationControl {
    /// Bit 3 set as the chip has it, both fault interrupts on, the other flags off.
    fn default() -> (r: Self)
        ensures
            r@ == 0b0000_1011,
            r.spec_charge_fault_interrupt() == true,
            r.spec_battery_fault_interrupt() == true,
    {
        let mut reg = MiscOperationControl(0b0000_1000);
        reg.set_charge_fault_interrupt(true);
        reg.set_battery_fault_interrupt(true);
        assert(with_bit_range(with_bit_range(0b0000_1000u8, 1, 1, 1u8), 0, 0, 1u8)
            == 0b0000_1011) by (bit_vector);
        reg
    }
}

/// System status register (address `0x08`), read-only.
#[derive(Clone, Copy, Debug, PartialEq, Eq, Structural)]
pub struct SystemStatus(u8);

impl View for SystemStatus {
    type V = u8;

    /// The register's byte.
    closed spec fn view(&self) -> u8 {
        self.0
    }
}

impl SystemStatus {
    /// Source on VBUS, bits 7..=6.
    pub open spec fn spec_vbus_status(&self) -> VbusStatus {
        VbusStatus::spec_from_bits(bit_range_of(self@, 7, 6))
    }

    /// Charging state, bits 5..=4.
    pub open spec fn spec_charge_status(&self) -> ChargeStatus {
        ChargeStatus::spec_from_bits(bit_range_of(self@, 5, 4))
    }

    /// Dynamic power management state, bit 3.
    pub open spec fn spec_dpm_status(&self) -> DpmStatus {
        DpmStatus::spec_from_bits(bit_range_of(self@, 3, 3))
    }

    /// Input power state, bit 2.
    pub open spec fn spec_power_status(&self) -> PowerStatus {
        PowerStatus::spec_from_bits(bit_range_of(self@, 2, 2))
    }

    /// Thermal regulation state, bit 1.
    pub open spec fn spec_thermal_status(&self) -> ThermalStatus {
        ThermalStatus::spec_from_bits(bit_range_of(self@, 1, 1))
    }

    /// Minimum system voltage regulation state, bit 0.
    pub open spec fn spec_vsys_status(&self) -> VsysStatus {
        VsysStatus::spec_from_bits(bit_range_of(self@, 0, 0))
    }

    /// The register holding `raw` as it is.
    pub fn from_raw(raw: u8) -> (r: Self)
        ensures
            r@ == raw,
    {
        SystemStatus(raw)
    }

    /// The register's byte.
    pub fn raw(&self) -> (r: u8)
        ensures
            r == self@,
    {
        self.0
    }

    /// Source on VBUS.
    pub fn vbus_status(&self) -> (r: VbusStatus)
        ensures
            r == self.spec_vbus_status(),
    {
        VbusStatus::from(get_bit_range(self.0, 7, 6))
    }

    /// Charging state.
    pub fn charge_status(&self) -> (r: ChargeStatus)
        ensures
            r == self.spec_charge_status(),
    {
        ChargeStatus::from(get_bit_range(self.0, 5, 4))
    }

    /// Dynamic power management state.
    pub fn dpm_status(&self) -> (r: DpmStatus)
        ensures
            r == self.spec_dpm_status(),
    {
        DpmStatus::from(get_bit_range(self.0, 3, 3))
    }

    /// Input power state.
    pub fn power_status(&self) -> (r: PowerStatus)
        ensures
            r == self.spec_power_status(),
    {
        PowerStatus::from(get_bit_range(self.0, 2, 2))
    }

    /// Thermal regulation state.
    pub fn thermal_status(&self) -> (r: ThermalStatus)
        ensures
            r == self.spec_thermal_status(),
    {
        ThermalStatus::from(get_bit_range(self.0, 1, 1))
    }

    /// Minimum system voltage regulation state.
    pub fn vsys_status(&self) -> (r: VsysStatus)
        ensures
            r == self.spec_vsys_status(),
    {
        VsysStatus::from(get_bit_range(self.0, 0, 0))
    }
}

/// Fault register (address `0x09`), read-only.
#[derive(Clone, Copy, Debug, PartialEq, Eq, Structural)]
pub struct Fault(u8);

impl View for Fault {
    type V = u8;

    /// The register's byte.
    closed spec fn view(&self) -> u8 {
        self.0
    }
}

impl Fault {
    /// Watchdog timer state, bit 7.
    pub open spec fn spec_watchdog(&self) -> Watchdog {
        Watchdog::spec_from_bits(bit_range_of(self@, 7, 7))
    }

    /// Charge fault, bits 5..=4.
    pub open spec fn spec_charge_fault(&self) -> ChargeFault {
        ChargeFault::spec_from_bits(bit_range_of(self@, 5, 4))
    }

    /// Battery fault, bit 3.
    pub open spec fn spec_battery_fault(&self) -> BatteryFault {
        BatteryFault::spec_from_bits(bit_range_of(self@, 3, 3))
    }

    /// Thermistor fault, bits 2..=0.
    pub open spec fn spec_thermistor_fault(&self) -> ThermistorFault {
        ThermistorFault::spec_from_bits(bit_range_of(self@, 2, 0))
    }

    /// The register holding `raw` as it is.
    pub fn from_raw(raw: u8) -> (r: Self)
        ensures
            r@ == raw,
    {
        Fault(raw)
    }

    /// The register's byte.
    pub fn raw(&self) -> (r: u8)
        ensures
            r == self@,
    {
        self.0
    }

    /// Watchdog timer state.
    pub fn watchdog(&self) -> (r: Watchdog)
        ensures
            r == self.spec_watchdog(),
    {
        Watchdog::from(get_bit_range(self.0, 7, 7))
    }

    /// Charge fault.
    pub fn charge_fault(&self) -> (r: ChargeFault)
        ensures
            r == self.spec_charge_fault(),
    {
        ChargeFault::from(get_bit_range(self.0, 5, 4))
    }

    /// Battery fault.
    pub fn battery_fault(&self) -> (r: BatteryFault)
        ensures
            r == self.spec_battery_fault(),
    {
        BatteryFault::from(get_bit_range(self.0, 3, 3))
    }

    /// Thermistor fault.
    pub fn thermistor_fault(&self) -> (r: ThermistorFault)
        ensures
            r == self.spec_thermistor_fault(),
    {
        ThermistorFault::from(get_bit_range(self.0, 2, 0))
    }
}

} // verus!
