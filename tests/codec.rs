use bq24195::{
    BatteryFault, ChargeFault, ChargeStatus, ChargerConfiguration, DpmStatus, InputCurrentLimit,
    InputVoltageLimit, MinimumSystemVoltage, PowerStatus, ThermalStatus, ThermistorFault,
    VbusStatus, VsysStatus, Watchdog,
};

#[test]
fn it_works() {
    assert_eq!(2 + 2, 4);
}

#[test]
fn input_voltage_limit_round_trip() {
    let all = [
        InputVoltageLimit::V3_88,
        InputVoltageLimit::V3_96,
        InputVoltageLimit::V4_04,
        InputVoltageLimit::V4_12,
        InputVoltageLimit::V4_2,
        InputVoltageLimit::V4_28,
        InputVoltageLimit::V4_36,
        InputVoltageLimit::V4_44,
        InputVoltageLimit::V4_52,
        InputVoltageLimit::V4_6,
        InputVoltageLimit::V4_68,
        InputVoltageLimit::V4_76,
        InputVoltageLimit::V4_84,
        InputVoltageLimit::V4_92,
        InputVoltageLimit::V5,
        InputVoltageLimit::V5_08,
    ];
    for (i, v) in all.iter().enumerate() {
        let bits: u8 = (*v).into();
        assert_eq!(bits as usize, i);
        assert_eq!(InputVoltageLimit::from(bits), *v);
    }
}

#[test]
fn input_current_limit_round_trip() {
    let all = [
        InputCurrentLimit::MA100,
        InputCurrentLimit::MA150,
        InputCurrentLimit::MA500,
        InputCurrentLimit::MA900,
        InputCurrentLimit::MA1200,
        InputCurrentLimit::MA1500,
        InputCurrentLimit::MA2000,
        InputCurrentLimit::MA3000,
    ];
    for (i, v) in all.iter().enumerate() {
        let bits: u8 = (*v).into();
        assert_eq!(bits as usize, i);
        assert_eq!(InputCurrentLimit::from(bits), *v);
    }
}

#[test]
fn minimum_system_voltage_round_trip() {
    let all = [
        MinimumSystemVoltage::V3,
        MinimumSystemVoltage::V3_1,
        MinimumSystemVoltage::V3_2,
        MinimumSystemVoltage::V3_3,
        MinimumSystemVoltage::V3_4,
        MinimumSystemVoltage::V3_5,
        MinimumSystemVoltage::V3_6,
        MinimumSystemVoltage::V3_7,
    ];
    for (i, v) in all.iter().enumerate() {
        let bits: u8 = (*v).into();
        assert_eq!(bits as usize, i);
        assert_eq!(MinimumSystemVoltage::from(bits), *v);
    }
}

#[test]
fn charger_configuration_round_trip_and_otg_alias() {
    assert_eq!(u8::from(ChargerConfiguration::ChargeDisabled), 0b00);
    assert_eq!(u8::from(ChargerConfiguration::ChargeBattery), 0b01);
    assert_eq!(u8::from(ChargerConfiguration::OTG), 0b10);
    for v in [
        ChargerConfiguration::ChargeDisabled,
        ChargerConfiguration::ChargeBattery,
        ChargerConfiguration::OTG,
    ] {
        assert_eq!(ChargerConfiguration::from(u8::from(v)), v);
    }
    assert_eq!(ChargerConfiguration::from(0b11), ChargerConfiguration::OTG);
}

#[test]
fn status_fields_round_trip() {
    for v in [VbusStatus::Unknown, VbusStatus::UsbHost, VbusStatus::Adapter, VbusStatus::Otg] {
        assert_eq!(VbusStatus::from(u8::from(v)), v);
    }
    for v in [
        ChargeStatus::NotCharging,
        ChargeStatus::PreCharge,
        ChargeStatus::FastCharge,
        ChargeStatus::ChargeDone,
    ] {
        assert_eq!(ChargeStatus::from(u8::from(v)), v);
    }
    for v in [DpmStatus::NotDynamicPowerManagement, DpmStatus::Vindpm] {
        assert_eq!(DpmStatus::from(u8::from(v)), v);
    }
    for v in [PowerStatus::NotGood, PowerStatus::Good] {
        assert_eq!(PowerStatus::from(u8::from(v)), v);
    }
    for v in [ThermalStatus::Normal, ThermalStatus::Regulated] {
        assert_eq!(ThermalStatus::from(u8::from(v)), v);
    }
    for v in [VsysStatus::NotRegulated, VsysStatus::Regulated] {
        assert_eq!(VsysStatus::from(u8::from(v)), v);
    }
    assert_eq!(u8::from(VbusStatus::Adapter), 0b10);
    assert_eq!(u8::from(ChargeStatus::FastCharge), 0b10);
}

#[test]
fn fault_fields_round_trip() {
    for v in [Watchdog::Normal, Watchdog::Expired] {
        assert_eq!(Watchdog::from(u8::from(v)), v);
    }
    for v in [
        ChargeFault::Normal,
        ChargeFault::InputFault,
        ChargeFault::ThermalShutdown,
        ChargeFault::SafetyTimerExpired,
    ] {
        assert_eq!(ChargeFault::from(u8::from(v)), v);
    }
    for v in [BatteryFault::Normal, BatteryFault::OverVoltageThreshold] {
        assert_eq!(BatteryFault::from(u8::from(v)), v);
    }
    for v in [
        ThermistorFault::Normal,
        ThermistorFault::Cold,
        ThermistorFault::Hot,
        ThermistorFault::Unknown,
    ] {
        assert_eq!(ThermistorFault::from(u8::from(v)), v);
    }
    assert_eq!(u8::from(ThermistorFault::Cold), 0b101);
    assert_eq!(u8::from(ThermistorFault::Hot), 0b110);
    assert_eq!(u8::from(ThermistorFault::Unknown), 0b111);
}

#[test]
fn thermistor_fault_lookup_is_not_linear() {
    assert_eq!(ThermistorFault::from(0b000), ThermistorFault::Normal);
    assert_eq!(ThermistorFault::from(0b101), ThermistorFault::Cold);
    assert_eq!(ThermistorFault::from(0b110), ThermistorFault::Hot);
    for p in [0b001, 0b010, 0b011, 0b100, 0b111] {
        assert_eq!(ThermistorFault::from(p), ThermistorFault::Unknown);
    }
}

#[test]
fn decoding_masks_to_the_field_width() {
    assert_eq!(InputVoltageLimit::from(0b1111_0110), InputVoltageLimit::V4_36);
    assert_eq!(InputCurrentLimit::from(0b1111_1010), InputCurrentLimit::MA500);
    assert_eq!(MinimumSystemVoltage::from(0b0000_1101), MinimumSystemVoltage::V3_5);
    assert_eq!(ChargerConfiguration::from(0b1111_1101), ChargerConfiguration::ChargeBattery);
    assert_eq!(VbusStatus::from(0b0000_0110), VbusStatus::Adapter);
    assert_eq!(ChargeStatus::from(0b1111_1111), ChargeStatus::ChargeDone);
    assert_eq!(DpmStatus::from(0b10), DpmStatus::NotDynamicPowerManagement);
    assert_eq!(PowerStatus::from(0b11), PowerStatus::Good);
    assert_eq!(ThermalStatus::from(0b1110), ThermalStatus::Normal);
    assert_eq!(VsysStatus::from(0xff), VsysStatus::Regulated);
    assert_eq!(Watchdog::from(0b10), Watchdog::Normal);
    assert_eq!(ChargeFault::from(0b0110), ChargeFault::ThermalShutdown);
    assert_eq!(BatteryFault::from(0b1001), BatteryFault::OverVoltageThreshold);
    assert_eq!(ThermistorFault::from(0b1111_1101), ThermistorFault::Cold);
}

#[test]
fn every_byte_decodes() {
    for b in 0..=255u8 {
        let _ = InputVoltageLimit::from(b);
        let _ = InputCurrentLimit::from(b);
        let _ = ChargerConfiguration::from(b);
        let _ = MinimumSystemVoltage::from(b);
        let _ = VbusStatus::from(b);
        let _ = ChargeStatus::from(b);
        let _ = DpmStatus::from(b);
        let _ = PowerStatus::from(b);
        let _ = ThermalStatus::from(b);
        let _ = VsysStatus::from(b);
        let _ = Watchdog::from(b);
        let _ = ChargeFault::from(b);
        let _ = BatteryFault::from(b);
        let _ = ThermistorFault::from(b);
    }
}
