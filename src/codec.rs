//! Typed values of the charger's register fields and their bit patterns.
//!
//! Each field type has an encoding (`u8::from`) that gives every value one
//! fixed pattern, and a decoding (`T::from(u8)`) that first masks its input
//! to the field's width and then maps every pattern to some value.

use vstd::prelude::*;

verus! {

/// Masking a byte to its low bits is taking it modulo a power of two.
pub proof fn lemma_low_bits_mod(val: u8)
    ensures
        val & 0b1 == val % 2,
        val & 0b11 == val % 4,
        val & 0b111 == val % 8,
        val & 0b1111 == val % 16,
{
    assert(val & 0b1 == val % 2 && val & 0b11 == val % 4 && val & 0b111 == val % 8 && val
        & 0b1111 == val % 16) by (bit_vector);
}

/// Input voltage limit (VINDPM), a 4-bit field, from 3.88 V up in steps of 80 mV.
#[derive(Clone, Copy, Debug, PartialEq, Eq, Structural)]
pub enum InputVoltageLimit {
    V3_88,
    V3_96,
    V4_04,
    V4_12,
    V4_2,
    V4_28,
    V4_36,
    V4_44,
    V4_52,
    V4_6,
    V4_68,
    V4_76,
    V4_84,
    V4_92,
    V5,
    V5_08,
}

impl InputVoltageLimit {
    /// The bit pattern of each value.
    pub open spec fn spec_bits(self) -> u8 {
        match self {
            InputVoltageLimit::V3_88 => 0b0000,
            InputVoltageLimit::V3_96 => 0b0001,
            InputVoltageLimit::V4_04 => 0b0010,
            InputVoltageLimit::V4_12 => 0b0011,
            InputVoltageLimit::V4_2 => 0b0100,
            InputVoltageLimit::V4_28 => 0b0101,
            InputVoltageLimit::V4_36 => 0b0110,
            InputVoltageLimit::V4_44 => 0b0111,
            InputVoltageLimit::V4_52 => 0b1000,
            InputVoltageLimit::V4_6 => 0b1001,
            InputVoltageLimit::V4_68 => 0b1010,
            InputVoltageLimit::V4_76 => 0b1011,
            InputVoltageLimit::V4_84 => 0b1100,
            InputVoltageLimit::V4_92 => 0b1101,
            InputVoltageLimit::V5 => 0b1110,
            InputVoltageLimit::V5_08 => 0b1111,
        }
    }

    /// The value that the low 4 bits of `val` stand for.
    pub open spec fn spec_from_bits(val: u8) -> Self {
        let p = val % 16;
        if p == 0b0000 {
            InputVoltageLimit::V3_88
        } else if p == 0b0001 {
            InputVoltageLimit::V3_96
        } else if p == 0b0010 {
            InputVoltageLimit::V4_04
        } else if p == 0b0011 {
            InputVoltageLimit::V4_12
        } else if p == 0b0100 {
            InputVoltageLimit::V4_2
        } else if p == 0b0101 {
            InputVoltageLimit::V4_28
        } else if p == 0b0110 {
            InputVoltageLimit::V4_36
        } else if p == 0b0111 {
            InputVoltageLimit::V4_44
        } else if p == 0b1000 {
            InputVoltageLimit::V4_52
        } else if p == 0b1001 {
            InputVoltageLimit::V4_6
        } else if p == 0b1010 {
            InputVoltageLimit::V4_68
        } else if p == 0b1011 {
            InputVoltageLimit::V4_76
        } else if p == 0b1100 {
            InputVoltageLimit::V4_84
        } else if p == 0b1101 {
            InputVoltageLimit::V4_92
        } else if p == 0b1110 {
            InputVoltageLimit::V5
        } else {
            InputVoltageLimit::V5_08
        }
    }
}

impl From<InputVoltageLimit> for u8 {
    fn from(v: InputVoltageLimit) -> (r: u8)
        ensures
            r == v.spec_bits(),
    {
        match v {
            InputVoltageLimit::V3_88 => 0b0000,
            InputVoltageLimit::V3_96 => 0b0001,
            InputVoltageLimit::V4_04 => 0b0010,
            InputVoltageLimit::V4_12 => 0b0011,
            InputVoltageLimit::V4_2 => 0b0100,
            InputVoltageLimit::V4_28 => 0b0101,
            InputVoltageLimit::V4_36 => 0b0110,
            InputVoltageLimit::V4_44 => 0b0111,
            InputVoltageLimit::V4_52 => 0b1000,
            InputVoltageLimit::V4_6 => 0b1001,
            InputVoltageLimit::V4_68 => 0b1010,
            InputVoltageLimit::V4_76 => 0b1011,
            InputVoltageLimit::V4_84 => 0b1100,
            InputVoltageLimit::V4_92 => 0b1101,
            InputVoltageLimit::V5 => 0b1110,
            InputVoltageLimit::V5_08 => 0b1111,
        }
    }
}

impl vstd::std_specs::convert::FromSpecImpl<InputVoltageLimit> for u8 {
    open spec fn obeys_from_spec() -> bool {
        true
    }

    open spec fn from_spec(v: InputVoltageLimit) -> u8 {
        v.spec_bits()
    }
}

impl From<u8> for InputVoltageLimit {
    fn from(val: u8) -> (r: InputVoltageLimit)
        ensures
            r == InputVoltageLimit::spec_from_bits(val),
    {
        proof {
            lemma_low_bits_mod(val);
        }
        match val & 0b1111 {
            0b0000 => InputVoltageLimit::V3_88,
            0b0001 => InputVoltageLimit::V3_96,
            0b0010 => InputVoltageLimit::V4_04,
            0b0011 => InputVoltageLimit::V4_12,
            0b0100 => InputVoltageLimit::V4_2,
            0b0101 => InputVoltageLimit::V4_28,
            0b0110 => InputVoltageLimit::V4_36,
            0b0111 => InputVoltageLimit::V4_44,
            0b1000 => InputVoltageLimit::V4_52,
            0b1001 => InputVoltageLimit::V4_6,
            0b1010 => InputVoltageLimit::V4_68,
            0b1011 => InputVoltageLimit::V4_76,
            0b1100 => InputVoltageLimit::V4_84,
            0b1101 => InputVoltageLimit::V4_92,
            0b1110 => InputVoltageLimit::V5,
            _ => InputVoltageLimit::V5_08,
        }
    }
}

impl vstd::std_specs::convert::FromSpecImpl<u8> for InputVoltageLimit {
    open spec fn obeys_from_spec() -> bool {
        true
    }

    open spec fn from_spec(val: u8) -> InputVoltageLimit {
        InputVoltageLimit::spec_from_bits(val)
    }
}

/// Input current limit, a 3-bit field.
#[derive(Clone, Copy, Debug, PartialEq, Eq, Structural)]
pub enum InputCurrentLimit {
    MA100,
    MA150,
    MA500,
    MA900,
    MA1200,
    MA1500,
    MA2000,
    MA3000,
}

impl InputCurrentLimit {
    /// The bit pattern of each value.
    pub open spec fn spec_bits(self) -> u8 {
        match self {
            InputCurrentLimit::MA100 => 0b000,
            InputCurrentLimit::MA150 => 0b001,
            InputCurrentLimit::MA500 => 0b010,
            InputCurrentLimit::MA900 => 0b011,
            InputCurrentLimit::MA1200 => 0b100,
            InputCurrentLimit::MA1500 => 0b101,
            InputCurrentLimit::MA2000 => 0b110,
            InputCurrentLimit::MA3000 => 0b111,
        }
    }

    /// The value that the low 3 bits of `val` stand for.
    pub open spec fn spec_from_bits(val: u8) -> Self {
        let p = val % 8;
        if p == 0b000 {
            InputCurrentLimit::MA100
        } else if p == 0b001 {
            InputCurrentLimit::MA150
        } else if p == 0b010 {
            InputCurrentLimit::MA500
        } else if p == 0b011 {
            InputCurrentLimit::MA900
        } else if p == 0b100 {
            InputCurrentLimit::MA1200
        } else if p == 0b101 {
            InputCurrentLimit::MA1500
        } else if p == 0b110 {
            InputCurrentLimit::MA2000
        } else {
            InputCurrentLimit::MA3000
        }
    }
}

impl From<InputCurrentLimit> for u8 {
    fn from(v: InputCurrentLimit) -> (r: u8)
        ensures
            r == v.spec_bits(),
    {
        match v {
            InputCurrentLimit::MA100 => 0b000,
            InputCurrentLimit::MA150 => 0b001,
            InputCurrentLimit::MA500 => 0b010,
            InputCurrentLimit::MA900 => 0b011,
            InputCurrentLimit::MA1200 => 0b100,
            InputCurrentLimit::MA1500 => 0b101,
            InputCurrentLimit::MA2000 => 0b110,
            InputCurrentLimit::MA3000 => 0b111,
        }
    }
}

impl vstd::std_specs::convert::FromSpecImpl<InputCurrentLimit> for u8 {
    open spec fn obeys_from_spec() -> bool {
        true
    }

    open spec fn from_spec(v: InputCurrentLimit) -> u8 {
        v.spec_bits()
    }
}

impl From<u8> for InputCurrentLimit {
    fn from(val: u8) -> (r: InputCurrentLimit)
        ensures
            r == InputCurrentLimit::spec_from_bits(val),
    {
        proof {
            lemma_low_bits_mod(val);
        }
        match val & 0b111 {
            0b000 => InputCurrentLimit::MA100,
            0b001 => InputCurrentLimit::MA150,
            0b010 => InputCurrentLimit::MA500,
            0b011 => InputCurrentLimit::MA900,
            0b100 => InputCurrentLimit::MA1200,
            0b101 => InputCurrentLimit::MA1500,
            0b110 => InputCurrentLimit::MA2000,
            _ => InputCurrentLimit::MA3000,
        }
    }
}

impl vstd::std_specs::convert::FromSpecImpl<u8> for InputCurrentLimit {
    open spec fn obeys_from_spec() -> bool {
        true
    }

    open spec fn from_spec(val: u8) -> InputCurrentLimit {
        InputCurrentLimit::spec_from_bits(val)
    }
}

/// Charger configuration, a 2-bit field. `OTG` is written as `0b10`; the
/// chip reports `0b11` as OTG too, so both patterns read back as `OTG`.
#[derive(Clone, Copy, Debug, PartialEq, Eq, Structural)]
pub enum ChargerConfiguration {
    ChargeDisabled,
    ChargeBattery,
    OTG,
}

impl ChargerConfiguration {
    /// The bit pattern of each value.
    pub open spec fn spec_bits(self) -> u8 {
        match self {
            ChargerConfiguration::ChargeDisabled => 0b00,
            ChargerConfiguration::ChargeBattery => 0b01,
            ChargerConfiguration::OTG => 0b10,
        }
    }

    /// The value that the low 2 bits of `val` stand for.
    pub open spec fn spec_from_bits(val: u8) -> Self {
        let p = val % 4;
        if p == 0b00 {
            ChargerConfiguration::ChargeDisabled
        } else if p == 0b01 {
            ChargerConfiguration::ChargeBattery
        } else if p == 0b10 {
            ChargerConfiguration::OTG
        } else {
            ChargerConfiguration::OTG
        }
    }
}

impl From<ChargerConfiguration> for u8 {
    fn from(v: ChargerConfiguration) -> (r: u8)
        ensures
            r == v.spec_bits(),
    {
        match v {
            ChargerConfiguration::ChargeDisabled => 0b00,
            ChargerConfiguration::ChargeBattery => 0b01,
            ChargerConfiguration::OTG => 0b10,
        }
    }
}

impl vstd::std_specs::convert::FromSpecImpl<ChargerConfiguration> for u8 {
    open spec fn obeys_from_spec() -> bool {
        true
    }

    open spec fn from_spec(v: ChargerConfiguration) -> u8 {
        v.spec_bits()
    }
}

impl From<u8> for ChargerConfiguration {
    fn from(val: u8) -> (r: ChargerConfiguration)
        ensures
            r == ChargerConfiguration::spec_from_bits(val),
    {
        proof {
            lemma_low_bits_mod(val);
        }
        match val & 0b11 {
            0b00 => ChargerConfiguration::ChargeDisabled,
            0b01 => ChargerConfiguration::ChargeBattery,
            0b10 => ChargerConfiguration::OTG,
            _ => ChargerConfiguration::OTG,
        }
    }
}

impl vstd::std_specs::convert::FromSpecImpl<u8> for ChargerConfiguration {
    open spec fn obeys_from_spec() -> bool {
        true
    }

    open spec fn from_spec(val: u8) -> ChargerConfiguration {
        ChargerConfiguration::spec_from_bits(val)
    }
}

/// Minimum system voltage limit, a 3-bit field, from 3.0 V up in steps of 100 mV.
#[derive(Clone, Copy, Debug, PartialEq, Eq, Structural)]
pub enum MinimumSystemVoltage {
    V3,
    V3_1,
    V3_2,
    V3_3,
    V3_4,
    V3_5,
    V3_6,
    V3_7,
}

impl MinimumSystemVoltage {
    /// The bit pattern of each value.
    pub open spec fn spec_bits(self) -> u8 {
        match self {
            MinimumSystemVoltage::V3 => 0b000,
            MinimumSystemVoltage::V3_1 => 0b001,
            MinimumSystemVoltage::V3_2 => 0b010,
            MinimumSystemVoltage::V3_3 => 0b011,
            MinimumSystemVoltage::V3_4 => 0b100,
            MinimumSystemVoltage::V3_5 => 0b101,
            MinimumSystemVoltage::V3_6 => 0b110,
            MinimumSystemVoltage::V3_7 => 0b111,
        }
    }

    /// The value that the low 3 bits of `val` stand for.
    pub open spec fn spec_from_bits(val: u8) -> Self {
        let p = val % 8;
        if p == 0b000 {
            MinimumSystemVoltage::V3
        } else if p == 0b001 {
            MinimumSystemVoltage::V3_1
        } else if p == 0b010 {
            MinimumSystemVoltage::V3_2
        } else if p == 0b011 {
            MinimumSystemVoltage::V3_3
        } else if p == 0b100 {
            MinimumSystemVoltage::V3_4
        } else if p == 0b101 {
            MinimumSystemVoltage::V3_5
        } else if p == 0b110 {
            MinimumSystemVoltage::V3_6
        } else {
            MinimumSystemVoltage::V3_7
        }
    }
}

impl From<MinimumSystemVoltage> for u8 {
    fn from(v: MinimumSystemVoltage) -> (r: u8)
        ensures
            r == v.spec_bits(),
    {
        match v {
            MinimumSystemVoltage::V3 => 0b000,
            MinimumSystemVoltage::V3_1 => 0b001,
            MinimumSystemVoltage::V3_2 => 0b010,
            MinimumSystemVoltage::V3_3 => 0b011,
            MinimumSystemVoltage::V3_4 => 0b100,
            MinimumSystemVoltage::V3_5 => 0b101,
            MinimumSystemVoltage::V3_6 => 0b110,
            MinimumSystemVoltage::V3_7 => 0b111,
        }
    }
}

impl vstd::std_specs::convert::FromSpecImpl<MinimumSystemVoltage> for u8 {
    open spec fn obeys_from_spec() -> bool {
        true
    }

    open spec fn from_spec(v: MinimumSystemVoltage) -> u8 {
        v.spec_bits()
    }
}

impl From<u8> for MinimumSystemVoltage {
    fn from(val: u8) -> (r: MinimumSystemVoltage)
        ensures
            r == MinimumSystemVoltage::spec_from_bits(val),
    {
        proof {
            lemma_low_bits_mod(val);
        }
        match val & 0b111 {
            0b000 => MinimumSystemVoltage::V3,
            0b001 => MinimumSystemVoltage::V3_1,
            0b010 => MinimumSystemVoltage::V3_2,
            0b011 => MinimumSystemVoltage::V3_3,
            0b100 => MinimumSystemVoltage::V3_4,
            0b101 => MinimumSystemVoltage::V3_5,
            0b110 => MinimumSystemVoltage::V3_6,
            _ => MinimumSystemVoltage::V3_7,
        }
    }
}

impl vstd::std_specs::convert::FromSpecImpl<u8> for MinimumSystemVoltage {
    open spec fn obeys_from_spec() -> bool {
        true
    }

    open spec fn from_spec(val: u8) -> MinimumSystemVoltage {
        MinimumSystemVoltage::spec_from_bits(val)
    }
}

/// Source on VBUS, a 2-bit status field.
#[derive(Clone, Copy, Debug, PartialEq, Eq, Structural)]
pub enum VbusStatus {
    Unknown,
    UsbHost,
    Adapter,
    Otg,
}

impl VbusStatus {
    /// The bit pattern of each value.
    pub open spec fn spec_bits(self) -> u8 {
        match self {
            VbusStatus::Unknown => 0b00,
            VbusStatus::UsbHost => 0b01,
            VbusStatus::Adapter => 0b10,
            VbusStatus::Otg => 0b11,
        }
    }

    /// The value that the low 2 bits of `val` stand for.
    pub open spec fn spec_from_bits(val: u8) -> Self {
        let p = val % 4;
        if p == 0b00 {
            VbusStatus::Unknown
        } else if p == 0b01 {
            VbusStatus::UsbHost
        } else if p == 0b10 {
            VbusStatus::Adapter
        } else {
            VbusStatus::Otg
        }
    }
}

impl From<VbusStatus> for u8 {
    fn from(v: VbusStatus) -> (r: u8)
        ensures
            r == v.spec_bits(),
    {
        match v {
            VbusStatus::Unknown => 0b00,
            VbusStatus::UsbHost => 0b01,
            VbusStatus::Adapter => 0b10,
            VbusStatus::Otg => 0b11,
        }
    }
}

impl vstd::std_specs::convert::FromSpecImpl<VbusStatus> for u8 {
    open spec fn obeys_from_spec() -> bool {
        true
    }

    open spec fn from_spec(v: VbusStatus) -> u8 {
        v.spec_bits()
    }
}

impl From<u8> for VbusStatus {
    fn from(val: u8) -> (r: VbusStatus)
        ensures
            r == VbusStatus::spec_from_bits(val),
    {
        proof {
            lemma_low_bits_mod(val);
        }
        match val & 0b11 {
            0b00 => VbusStatus::Unknown,
            0b01 => VbusStatus::UsbHost,
            0b10 => VbusStatus::Adapter,
            _ => VbusStatus::Otg,
        }
    }
}

impl vstd::std_specs::convert::FromSpecImpl<u8> for VbusStatus {
    open spec fn obeys_from_spec() -> bool {
        true
    }

    open spec fn from_spec(val: u8) -> VbusStatus {
        VbusStatus::spec_from_bits(val)
    }
}

/// Charging state, a 2-bit status field.
#[derive(Clone, Copy, Debug, PartialEq, Eq, Structural)]
pub enum ChargeStatus {
    NotCharging,
    PreCharge,
    FastCharge,
    ChargeDone,
}

impl ChargeStatus {
    /// The bit pattern of each value.
    pub open spec fn spec_bits(self) -> u8 {
        match self {
            ChargeStatus::NotCharging => 0b00,
            ChargeStatus::PreCharge => 0b01,
            ChargeStatus::FastCharge => 0b10,
            ChargeStatus::ChargeDone => 0b11,
        }
    }

    /// The value that the low 2 bits of `val` stand for.
    pub open spec fn spec_from_bits(val: u8) -> Self {
        let p = val % 4;
        if p == 0b00 {
            ChargeStatus::NotCharging
        } else if p == 0b01 {
            ChargeStatus::PreCharge
        } else if p == 0b10 {
            ChargeStatus::FastCharge
        } else {
            ChargeStatus::ChargeDone
        }
    }
}

impl From<ChargeStatus> for u8 {
    fn from(v: ChargeStatus) -> (r: u8)
        ensures
            r == v.spec_bits(),
    {
        match v {
            ChargeStatus::NotCharging => 0b00,
            ChargeStatus::PreCharge => 0b01,
            ChargeStatus::FastCharge => 0b10,
            ChargeStatus::ChargeDone => 0b11,
        }
    }
}

impl vstd::std_specs::convert::FromSpecImpl<ChargeStatus> for u8 {
    open spec fn obeys_from_spec() -> bool {
        true
    }

    open spec fn from_spec(v: ChargeStatus) -> u8 {
        v.spec_bits()
    }
}

impl From<u8> for ChargeStatus {
    fn from(val: u8) -> (r: ChargeStatus)
        ensures
            r == ChargeStatus::spec_from_bits(val),
    {
        proof {
            lemma_low_bits_mod(val);
        }
        match val & 0b11 {
            0b00 => ChargeStatus::NotCharging,
            0b01 => ChargeStatus::PreCharge,
            0b10 => ChargeStatus::FastCharge,
            _ => ChargeStatus::ChargeDone,
        }
    }
}

impl vstd::std_specs::convert::FromSpecImpl<u8> for ChargeStatus {
    open spec fn obeys_from_spec() -> bool {
        true
    }

    open spec fn from_spec(val: u8) -> ChargeStatus {
        ChargeStatus::spec_from_bits(val)
    }
}

/// Whether input dynamic power management is active, a 1-bit status field.
#[derive(Clone, Copy, Debug, PartialEq, Eq, Structural)]
pub enum DpmStatus {
    NotDynamicPowerManagement,
    Vindpm,
}

impl DpmStatus {
    /// The bit pattern of each value.
    pub open spec fn spec_bits(self) -> u8 {
        match self {
            DpmStatus::NotDynamicPowerManagement => 0b0,
            DpmStatus::Vindpm => 0b1,
        }
    }

    /// The value that the low 1 bit of `val` stand for.
    pub open spec fn spec_from_bits(val: u8) -> Self {
        let p = val % 2;
        if p == 0b0 {
            DpmStatus::NotDynamicPowerManagement
        } else {
            DpmStatus::Vindpm
        }
    }
}

impl From<DpmStatus> for u8 {
    fn from(v: DpmStatus) -> (r: u8)
        ensures
            r == v.spec_bits(),
    {
        match v {
            DpmStatus::NotDynamicPowerManagement => 0b0,
            DpmStatus::Vindpm => 0b1,
        }
    }
}

impl vstd::std_specs::convert::FromSpecImpl<DpmStatus> for u8 {
    open spec fn obeys_from_spec() -> bool {
        true
    }

    open spec fn from_spec(v: DpmStatus) -> u8 {
        v.spec_bits()
    }
}

impl From<u8> for DpmStatus {
    fn from(val: u8) -> (r: DpmStatus)
        ensures
            r == DpmStatus::spec_from_bits(val),
    {
        proof {
            lemma_low_bits_mod(val);
        }
        match val & 0b1 {
            0b0 => DpmStatus::NotDynamicPowerManagement,
            _ => DpmStatus::Vindpm,
        }
    }
}

impl vstd::std_specs::convert::FromSpecImpl<u8> for DpmStatus {
    open spec fn obeys_from_spec() -> bool {
        true
    }

    open spec fn from_spec(val: u8) -> DpmStatus {
        DpmStatus::spec_from_bits(val)
    }
}

/// Whether the input power is good, a 1-bit status field.
#[derive(Clone, Copy, Debug, PartialEq, Eq, Structural)]
pub enum PowerStatus {
    NotGood,
    Good,
}

impl PowerStatus {
    /// The bit pattern of each value.
    pub open spec fn spec_bits(self) -> u8 {
        match self {
            PowerStatus::NotGood => 0b0,
            PowerStatus::Good => 0b1,
        }
    }

    /// The value that the low 1 bit of `val` stand for.
    pub open spec fn spec_from_bits(val: u8) -> Self {
        let p = val % 2;
        if p == 0b0 {
            PowerStatus::NotGood
        } else {
            PowerStatus::Good
        }
    }
}

impl From<PowerStatus> for u8 {
    fn from(v: PowerStatus) -> (r: u8)
        ensures
            r == v.spec_bits(),
    {
        match v {
            PowerStatus::NotGood => 0b0,
            PowerStatus::Good => 0b1,
        }
    }
}

impl vstd::std_specs::convert::FromSpecImpl<PowerStatus> for u8 {
    open spec fn obeys_from_spec() -> bool {
        true
    }

    open spec fn from_spec(v: PowerStatus) -> u8 {
        v.spec_bits()
    }
}

impl From<u8> for PowerStatus {
    fn from(val: u8) -> (r: PowerStatus)
        ensures
            r == PowerStatus::spec_from_bits(val),
    {
        proof {
            lemma_low_bits_mod(val);
        }
        match val & 0b1 {
            0b0 => PowerStatus::NotGood,
            _ => PowerStatus::Good,
        }
    }
}

impl vstd::std_specs::convert::FromSpecImpl<u8> for PowerStatus {
    open spec fn obeys_from_spec() -> bool {
        true
    }

    open spec fn from_spec(val: u8) -> PowerStatus {
        PowerStatus::spec_from_bits(val)
    }
}

/// Whether the charger is in thermal regulation, a 1-bit status field.
#[derive(Clone, Copy, Debug, PartialEq, Eq, Structural)]
pub enum ThermalStatus {
    Normal,
    Regulated,
}

impl ThermalStatus {
    /// The bit pattern of each value.
    pub open spec fn spec_bits(self) -> u8 {
        match self {
            ThermalStatus::Normal => 0b0,
            ThermalStatus::Regulated => 0b1,
        }
    }

    /// The value that the low 1 bit of `val` stand for.
    pub open spec fn spec_from_bits(val: u8) -> Self {
        let p = val % 2;
        if p == 0b0 {
            ThermalStatus::Normal
        } else {
            ThermalStatus::Regulated
        }
    }
}

impl From<ThermalStatus> for u8 {
    fn from(v: ThermalStatus) -> (r: u8)
        ensures
            r == v.spec_bits(),
    {
        match v {
            ThermalStatus::Normal => 0b0,
            ThermalStatus::Regulated => 0b1,
        }
    }
}

impl vstd::std_specs::convert::FromSpecImpl<ThermalStatus> for u8 {
    open spec fn obeys_from_spec() -> bool {
        true
    }

    open spec fn from_spec(v: ThermalStatus) -> u8 {
        v.spec_bits()
    }
}

impl From<u8> for ThermalStatus {
    fn from(val: u8) -> (r: ThermalStatus)
        ensures
            r == ThermalStatus::spec_from_bits(val),
    {
        proof {
            lemma_low_bits_mod(val);
        }
        match val & 0b1 {
            0b0 => ThermalStatus::Normal,
            _ => ThermalStatus::Regulated,
        }
    }
}

impl vstd::std_specs::convert::FromSpecImpl<u8> for ThermalStatus {
    open spec fn obeys_from_spec() -> bool {
        true
    }

    open spec fn from_spec(val: u8) -> ThermalStatus {
        ThermalStatus::spec_from_bits(val)
    }
}

/// Whether the system voltage is in minimum-voltage regulation, a 1-bit status field.
#[derive(Clone, Copy, Debug, PartialEq, Eq, Structural)]
pub enum VsysStatus {
    NotRegulated,
    Regulated,
}

impl VsysStatus {
    /// The bit pattern of each value.
    pub open spec fn spec_bits(self) -> u8 {
        match self {
            VsysStatus::NotRegulated => 0b0,
            VsysStatus::Regulated => 0b1,
        }
    }

    /// The value that the low 1 bit of `val` stand for.
    pub open spec fn spec_from_bits(val: u8) -> Self {
        let p = val % 2;
        if p == 0b0 {
            VsysStatus::NotRegulated
        } else {
            VsysStatus::Regulated
        }
    }
}

impl From<VsysStatus> for u8 {
    fn from(v: VsysStatus) -> (r: u8)
        ensures
            r == v.spec_bits(),
    {
        match v {
            VsysStatus::NotRegulated => 0b0,
            VsysStatus::Regulated => 0b1,
        }
    }
}

impl vstd::std_specs::convert::FromSpecImpl<VsysStatus> for u8 {
    open spec fn obeys_from_spec() -> bool {
        true
    }

    open spec fn from_spec(v: VsysStatus) -> u8 {
        v.spec_bits()
    }
}

impl From<u8> for VsysStatus {
    fn from(val: u8) -> (r: VsysStatus)
        ensures
            r == VsysStatus::spec_from_bits(val),
    {
        proof {
            lemma_low_bits_mod(val);
        }
        match val & 0b1 {
            0b0 => VsysStatus::NotRegulated,
            _ => VsysStatus::Regulated,
        }
    }
}

impl vstd::std_specs::convert::FromSpecImpl<u8> for VsysStatus {
    open spec fn obeys_from_spec() -> bool {
        true
    }

    open spec fn from_spec(val: u8) -> VsysStatus {
        VsysStatus::spec_from_bits(val)
    }
}

/// Watchdog timer state, a 1-bit fault field.
#[derive(Clone, Copy, Debug, PartialEq, Eq, Structural)]
pub enum Watchdog {
    Normal,
    Expired,
}

impl Watchdog {
    /// The bit pattern of each value.
    pub open spec fn spec_bits(self) -> u8 {
        match self {
            Watchdog::Normal => 0b0,
            Watchdog::Expired => 0b1,
        }
    }

    /// The value that the low 1 bit of `val` stand for.
    pub open spec fn spec_from_bits(val: u8) -> Self {
        let p = val % 2;
        if p == 0b0 {
            Watchdog::Normal
        } else {
            Watchdog::Expired
        }
    }
}

impl From<Watchdog> for u8 {
    fn from(v: Watchdog) -> (r: u8)
        ensures
            r == v.spec_bits(),
    {
        match v {
            Watchdog::Normal => 0b0,
            Watchdog::Expired => 0b1,
        }
    }
}

impl vstd::std_specs::convert::FromSpecImpl<Watchdog> for u8 {
    open spec fn obeys_from_spec() -> bool {
        true
    }

    open spec fn from_spec(v: Watchdog) -> u8 {
        v.spec_bits()
    }
}

impl From<u8> for Watchdog {
    fn from(val: u8) -> (r: Watchdog)
        ensures
            r == Watchdog::spec_from_bits(val),
    {
        proof {
            lemma_low_bits_mod(val);
        }
        match val & 0b1 {
            0b0 => Watchdog::Normal,
            _ => Watchdog::Expired,
        }
    }
}

impl vstd::std_specs::convert::FromSpecImpl<u8> for Watchdog {
    open spec fn obeys_from_spec() -> bool {
        true
    }

    open spec fn from_spec(val: u8) -> Watchdog {
        Watchdog::spec_from_bits(val)
    }
}

/// Charge fault, a 2-bit fault field.
#[derive(Clone, Copy, Debug, PartialEq, Eq, Structural)]
pub enum ChargeFault {
    Normal,
    InputFault,
    ThermalShutdown,
    SafetyTimerExpired,
}

impl ChargeFault {
    /// The bit pattern of each value.
    pub open spec fn spec_bits(self) -> u8 {
        match self {
            ChargeFault::Normal => 0b00,
            ChargeFault::InputFault => 0b01,
            ChargeFault::ThermalShutdown => 0b10,
            ChargeFault::SafetyTimerExpired => 0b11,
        }
    }

    /// The value that the low 2 bits of `val` stand for.
    pub open spec fn spec_from_bits(val: u8) -> Self {
        let p = val % 4;
        if p == 0b00 {
            ChargeFault::Normal
        } else if p == 0b01 {
            ChargeFault::InputFault
        } else if p == 0b10 {
            ChargeFault::ThermalShutdown
        } else {
            ChargeFault::SafetyTimerExpired
        }
    }
}

impl From<ChargeFault> for u8 {
    fn from(v: ChargeFault) -> (r: u8)
        ensures
            r == v.spec_bits(),
    {
        match v {
            ChargeFault::Normal => 0b00,
            ChargeFault::InputFault => 0b01,
            ChargeFault::ThermalShutdown => 0b10,
            ChargeFault::SafetyTimerExpired => 0b11,
        }
    }
}

impl vstd::std_specs::convert::FromSpecImpl<ChargeFault> for u8 {
    open spec fn obeys_from_spec() -> bool {
        true
    }

    open spec fn from_spec(v: ChargeFault) -> u8 {
        v.spec_bits()
    }
}

impl From<u8> for ChargeFault {
    fn from(val: u8) -> (r: ChargeFault)
        ensures
            r == ChargeFault::spec_from_bits(val),
    {
        proof {
            lemma_low_bits_mod(val);
        }
        match val & 0b11 {
            0b00 => ChargeFault::Normal,
            0b01 => ChargeFault::InputFault,
            0b10 => ChargeFault::ThermalShutdown,
            _ => ChargeFault::SafetyTimerExpired,
        }
    }
}

impl vstd::std_specs::convert::FromSpecImpl<u8> for ChargeFault {
    open spec fn obeys_from_spec() -> bool {
        true
    }

    open spec fn from_spec(val: u8) -> ChargeFault {
        ChargeFault::spec_from_bits(val)
    }
}

/// Battery fault, a 1-bit fault field.
#[derive(Clone, Copy, Debug, PartialEq, Eq, Structural)]
pub enum BatteryFault {
    Normal,
    OverVoltageThreshold,
}

impl BatteryFault {
    /// The bit pattern of each value.
    pub open spec fn spec_bits(self) -> u8 {
        match self {
            BatteryFault::Normal => 0b0,
            BatteryFault::OverVoltageThreshold => 0b1,
        }
    }

    /// The value that the low 1 bit of `val` stand for.
    pub open spec fn spec_from_bits(val: u8) -> Self {
        let p = val % 2;
        if p == 0b0 {
            BatteryFault::Normal
        } else {
            BatteryFault::OverVoltageThreshold
        }
    }
}

impl From<BatteryFault> for u8 {
    fn from(v: BatteryFault) -> (r: u8)
        ensures
            r == v.spec_bits(),
    {
        match v {
            BatteryFault::Normal => 0b0,
            BatteryFault::OverVoltageThreshold => 0b1,
        }
    }
}

impl vstd::std_specs::convert::FromSpecImpl<BatteryFault> for u8 {
    open spec fn obeys_from_spec() -> bool {
        true
    }

    open spec fn from_spec(v: BatteryFault) -> u8 {
        v.spec_bits()
    }
}

impl From<u8> for BatteryFault {
    fn from(val: u8) -> (r: BatteryFault)
        ensures
            r == BatteryFault::spec_from_bits(val),
    {
        proof {
            lemma_low_bits_mod(val);
        }
        match val & 0b1 {
            0b0 => BatteryFault::Normal,
            _ => BatteryFault::OverVoltageThreshold,
        }
    }
}

impl vstd::std_specs::convert::FromSpecImpl<u8> for BatteryFault {
    open spec fn obeys_from_spec() -> bool {
        true
    }

    open spec fn from_spec(val: u8) -> BatteryFault {
        BatteryFault::spec_from_bits(val)
    }
}

/// Thermistor fault, a 3-bit fault field. Only `0b000`, `0b101` and `0b110`
/// have a meaning; every other pattern reads back as `Unknown`, which is written as `0b111`.
#[derive(Clone, Copy, Debug, PartialEq, Eq, Structural)]
pub enum ThermistorFault {
    Normal,
    Cold,
    Hot,
    Unknown,
}

impl ThermistorFault {
    /// The bit pattern of each value.
    pub open spec fn spec_bits(self) -> u8 {
        match self {
            ThermistorFault::Normal => 0b000,
            ThermistorFault::Cold => 0b101,
            ThermistorFault::Hot => 0b110,
            ThermistorFault::Unknown => 0b111,
        }
    }

    /// The value that the low 3 bits of `val` stand for.
    pub open spec fn spec_from_bits(val: u8) -> Self {
        let p = val % 8;
        if p == 0b000 {
            ThermistorFault::Normal
        } else if p == 0b101 {
            ThermistorFault::Cold
        } else if p == 0b110 {
            ThermistorFault::Hot
        } else {
            ThermistorFault::Unknown
        }
    }
}

impl From<ThermistorFault> for u8 {
    fn from(v: ThermistorFault) -> (r: u8)
        ensures
            r == v.spec_bits(),
    {
        match v {
            ThermistorFault::Normal => 0b000,
            ThermistorFault::Cold => 0b101,
            ThermistorFault::Hot => 0b110,
            ThermistorFault::Unknown => 0b111,
        }
    }
}

impl vstd::std_specs::convert::FromSpecImpl<ThermistorFault> for u8 {
    open spec fn obeys_from_spec() -> bool {
        true
    }

    open spec fn from_spec(v: ThermistorFault) -> u8 {
        v.spec_bits()
    }
}

impl From<u8> for ThermistorFault {
    fn from(val: u8) -> (r: ThermistorFault)
        ensures
            r == ThermistorFault::spec_from_bits(val),
    {
        proof {
            lemma_low_bits_mod(val);
        }
        match val & 0b111 {
            0b000 => ThermistorFault::Normal,
            0b101 => ThermistorFault::Cold,
            0b110 => ThermistorFault::Hot,
            _ => ThermistorFault::Unknown,
        }
    }
}

impl vstd::std_specs::convert::FromSpecImpl<u8> for ThermistorFault {
    open spec fn obeys_from_spec() -> bool {
        true
    }

    open spec fn from_spec(val: u8) -> ThermistorFault {
        ThermistorFault::spec_from_bits(val)
    }
}

/// Decoding the pattern of any field value gives that value back, and every
/// pattern fits in its field.
pub proof fn lemma_decode_encode()
    ensures
        forall|v: InputVoltageLimit| #[trigger] InputVoltageLimit::spec_from_bits(v.spec_bits()) == v && v.spec_bits() < 16,
        forall|v: InputCurrentLimit| #[trigger] InputCurrentLimit::spec_from_bits(v.spec_bits()) == v && v.spec_bits() < 8,
        forall|v: ChargerConfiguration| #[trigger] ChargerConfiguration::spec_from_bits(v.spec_bits()) == v && v.spec_bits() < 4,
        forall|v: MinimumSystemVoltage| #[trigger] MinimumSystemVoltage::spec_from_bits(v.spec_bits()) == v && v.spec_bits() < 8,
        forall|v: VbusStatus| #[trigger] VbusStatus::spec_from_bits(v.spec_bits()) == v && v.spec_bits() < 4,
        forall|v: ChargeStatus| #[trigger] ChargeStatus::spec_from_bits(v.spec_bits()) == v && v.spec_bits() < 4,
        forall|v: DpmStatus| #[trigger] DpmStatus::spec_from_bits(v.spec_bits()) == v && v.spec_bits() < 2,
        forall|v: PowerStatus| #[trigger] PowerStatus::spec_from_bits(v.spec_bits()) == v && v.spec_bits() < 2,
        forall|v: ThermalStatus| #[trigger] ThermalStatus::spec_from_bits(v.spec_bits()) == v && v.spec_bits() < 2,
        forall|v: VsysStatus| #[trigger] VsysStatus::spec_from_bits(v.spec_bits()) == v && v.spec_bits() < 2,
        forall|v: Watchdog| #[trigger] Watchdog::spec_from_bits(v.spec_bits()) == v && v.spec_bits() < 2,
        forall|v: ChargeFault| #[trigger] ChargeFault::spec_from_bits(v.spec_bits()) == v && v.spec_bits() < 4,
        forall|v: BatteryFault| #[trigger] BatteryFault::spec_from_bits(v.spec_bits()) == v && v.spec_bits() < 2,
        forall|v: ThermistorFault| #[trigger] ThermistorFault::spec_from_bits(v.spec_bits()) == v && v.spec_bits() < 8,
{
}

/// Decoding looks only at the field's own bits: a byte decodes as its low bits do.
pub proof fn lemma_decode_masks(val: u8)
    ensures
        InputVoltageLimit::spec_from_bits(val) == InputVoltageLimit::spec_from_bits((val % 16) as u8),
        InputCurrentLimit::spec_from_bits(val) == InputCurrentLimit::spec_from_bits((val % 8) as u8),
        ChargerConfiguration::spec_from_bits(val) == ChargerConfiguration::spec_from_bits((val % 4) as u8),
        MinimumSystemVoltage::spec_from_bits(val) == MinimumSystemVoltage::spec_from_bits((val % 8) as u8),
        VbusStatus::spec_from_bits(val) == VbusStatus::spec_from_bits((val % 4) as u8),
        ChargeStatus::spec_from_bits(val) == ChargeStatus::spec_from_bits((val % 4) as u8),
        DpmStatus::spec_from_bits(val) == DpmStatus::spec_from_bits((val % 2) as u8),
        PowerStatus::spec_from_bits(val) == PowerStatus::spec_from_bits((val % 2) as u8),
        ThermalStatus::spec_from_bits(val) == ThermalStatus::spec_from_bits((val % 2) as u8),
        VsysStatus::spec_from_bits(val) == VsysStatus::spec_from_bits((val % 2) as u8),
        Watchdog::spec_from_bits(val) == Watchdog::spec_from_bits((val % 2) as u8),
        ChargeFault::spec_from_bits(val) == ChargeFault::spec_from_bits((val % 4) as u8),
        BatteryFault::spec_from_bits(val) == BatteryFault::spec_from_bits((val % 2) as u8),
        ThermistorFault::spec_from_bits(val) == ThermistorFault::spec_from_bits((val % 8) as u8),
{
}

} // verus!
