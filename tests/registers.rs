use bq24195::{
    BatteryFault, ChargeFault, ChargeStatus, ChargerConfiguration, DpmStatus, Fault,
    InputCurrentLimit, InputSourceControl, InputVoltageLimit, MinimumSystemVoltage,
    MiscOperationControl, PowerOnConfiguration, PowerStatus, SystemStatus, ThermalStatus,
    ThermistorFault, VbusStatus, VsysStatus, Watchdog,
};

#[test]
fn input_source_control_default_byte() {
    let reg = InputSourceControl::default();
    assert_eq!(reg.raw(), 0b0011_0000);
    assert!(!reg.hiz());
    assert_eq!(reg.input_voltage_limit(), InputVoltageLimit::V4_36);
    assert_eq!(reg.input_current_limit(), InputCurrentLimit::MA100);
}

#[test]
fn power_on_configuration_default_byte() {
    let reg = PowerOnConfiguration::default();
    assert_eq!(reg.raw(), 0b0001_1011);
    assert!(!reg.register_reset());
    assert!(!reg.watchdog_reset());
    assert_eq!(reg.charger_configuration(), ChargerConfiguration::ChargeBattery);
    assert_eq!(reg.minimum_system_voltage(), MinimumSystemVoltage::V3_5);
}

#[test]
fn misc_operation_control_default_byte() {
    let reg = MiscOperationControl::default();
    assert_eq!(reg.raw(), 0b0000_1011);
    assert!(reg.charge_fault_interrupt());
    assert!(reg.battery_fault_interrupt());
    assert!(!reg.dpdm_detection());
    assert!(!reg.safety_timer_slowed());
    assert!(!reg.battery_fet_disabled());
}

#[test]
fn input_source_control_fields_are_isolated() {
    let mut reg = InputSourceControl::from_raw(0xff);
    reg.set_input_voltage_limit(InputVoltageLimit::V3_88);
    assert_eq!(reg.raw(), 0b1000_0111);
    assert!(reg.hiz());
    assert_eq!(reg.input_current_limit(), InputCurrentLimit::MA3000);
    reg.set_hiz(false);
    assert_eq!(reg.raw(), 0b0000_0111);
    assert_eq!(reg.input_voltage_limit(), InputVoltageLimit::V3_88);
    reg.set_input_current_limit(InputCurrentLimit::MA900);
    assert_eq!(reg.raw(), 0b0000_0011);
    reg.set_input_voltage_limit(InputVoltageLimit::V5);
    assert_eq!(reg.raw(), 0b0111_0011);
    assert_eq!(reg.input_voltage_limit(), InputVoltageLimit::V5);
    assert_eq!(reg.input_current_limit(), InputCurrentLimit::MA900);
    assert!(!reg.hiz());
}

#[test]
fn power_on_configuration_keeps_reserved_bit() {
    let mut reg = PowerOnConfiguration::default();
    reg.set_reset(true);
    assert_eq!(reg.raw(), 0b1001_1011);
    reg.set_watchdog_reset(true);
    assert_eq!(reg.raw(), 0b1101_1011);
    reg.set_charger_configuration(ChargerConfiguration::OTG);
    assert_eq!(reg.raw(), 0b1110_1011);
    reg.set_minimum_system_voltage(MinimumSystemVoltage::V3);
    assert_eq!(reg.raw(), 0b1110_0001);
    assert!(reg.register_reset());
    assert!(reg.watchdog_reset());
    assert_eq!(reg.charger_configuration(), ChargerConfiguration::OTG);
    assert_eq!(reg.minimum_system_voltage(), MinimumSystemVoltage::V3);
    reg.set_reset(false);
    reg.set_watchdog_reset(false);
    assert_eq!(reg.raw(), 0b0010_0001);
}

#[test]
fn power_on_configuration_reads_otg_from_both_patterns() {
    assert_eq!(
        PowerOnConfiguration::from_raw(0b0010_0000).charger_configuration(),
        ChargerConfiguration::OTG
    );
    assert_eq!(
        PowerOnConfiguration::from_raw(0b0011_0000).charger_configuration(),
        ChargerConfiguration::OTG
    );
}

#[test]
fn misc_operation_control_fields_are_isolated() {
    let mut reg = MiscOperationControl::from_raw(0);
    reg.set_dpdm_detection(true);
    assert_eq!(reg.raw(), 0b1000_0000);
    reg.set_safety_timer_slowed(true);
    assert_eq!(reg.raw(), 0b1100_0000);
    reg.set_battery_fet_disabled(true);
    assert_eq!(reg.raw(), 0b1110_0000);
    reg.set_charge_fault_interrupt(true);
    assert_eq!(reg.raw(), 0b1110_0010);
    reg.set_battery_fault_interrupt(true);
    assert_eq!(reg.raw(), 0b1110_0011);
    reg.set_safety_timer_slowed(false);
    assert_eq!(reg.raw(), 0b1010_0011);
    assert!(reg.dpdm_detection());
    assert!(!reg.safety_timer_slowed());
    assert!(reg.battery_fet_disabled());
    assert!(reg.charge_fault_interrupt());
    assert!(reg.battery_fault_interrupt());
}

#[test]
fn setting_a_field_twice_keeps_the_last_value() {
    let mut reg = MiscOperationControl::default();
    reg.set_charge_fault_interrupt(false);
    reg.set_charge_fault_interrupt(false);
    assert_eq!(reg.raw(), 0b0000_1001);
    reg.set_charge_fault_interrupt(true);
    assert_eq!(reg.raw(), 0b0000_1011);
}

#[test]
fn system_status_decodes_each_field() {
    let status = SystemStatus::from_raw(0b01_10_1_0_1_0);
    assert_eq!(status.raw(), 0b0110_1010);
    assert_eq!(status.vbus_status(), VbusStatus::UsbHost);
    assert_eq!(status.charge_status(), ChargeStatus::FastCharge);
    assert_eq!(status.dpm_status(), DpmStatus::Vindpm);
    assert_eq!(status.power_status(), PowerStatus::NotGood);
    assert_eq!(status.thermal_status(), ThermalStatus::Regulated);
    assert_eq!(status.vsys_status(), VsysStatus::NotRegulated);
    let status = SystemStatus::from_raw(0b11_11_0_1_0_1);
    assert_eq!(status.vbus_status(), VbusStatus::Otg);
    assert_eq!(status.charge_status(), ChargeStatus::ChargeDone);
    assert_eq!(status.dpm_status(), DpmStatus::NotDynamicPowerManagement);
    assert_eq!(status.power_status(), PowerStatus::Good);
    assert_eq!(status.thermal_status(), ThermalStatus::Normal);
    assert_eq!(status.vsys_status(), VsysStatus::Regulated);
}

#[test]
fn fault_decodes_the_worked_example() {
    // As a literal this byte is 0b0101_1101: bit 7 is clear.
    let fault = Fault::from_raw(0b1_01_1_101);
    assert_eq!(fault.watchdog(), Watchdog::Normal);
    assert_eq!(fault.charge_fault(), ChargeFault::InputFault);
    assert_eq!(fault.battery_fault(), BatteryFault::OverVoltageThreshold);
    assert_eq!(fault.thermistor_fault(), ThermistorFault::Cold);
}

#[test]
fn fault_decodes_an_expired_watchdog() {
    let fault = Fault::from_raw(0b1_0_01_1_101);
    assert_eq!(fault.watchdog(), Watchdog::Expired);
    assert_eq!(fault.charge_fault(), ChargeFault::InputFault);
    assert_eq!(fault.battery_fault(), BatteryFault::OverVoltageThreshold);
    assert_eq!(fault.thermistor_fault(), ThermistorFault::Cold);
    let fault = Fault::from_raw(0b0_1_10_0_011);
    assert_eq!(fault.watchdog(), Watchdog::Normal);
    assert_eq!(fault.charge_fault(), ChargeFault::ThermalShutdown);
    assert_eq!(fault.battery_fault(), BatteryFault::Normal);
    assert_eq!(fault.thermistor_fault(), ThermistorFault::Unknown);
}
