//! Register map of the HDC302x: bus addresses, command codes, configuration
//! selectors and the layout of the status register.
use vstd::prelude::*;

verus! {

/// Start a single on-demand measurement, one code per low-power mode.
pub const ONE_SHOT_LPM0: u16 = 0x2400;
pub const ONE_SHOT_LPM1: u16 = 0x240B;
pub const ONE_SHOT_LPM2: u16 = 0x2416;
pub const ONE_SHOT_LPM3: u16 = 0x24FF;
/// Start auto mode at 0.5 measurements per second.
pub const AUTO_HALF_HZ_LPM0: u16 = 0x2032;
pub const AUTO_HALF_HZ_LPM1: u16 = 0x2024;
pub const AUTO_HALF_HZ_LPM2: u16 = 0x202F;
pub const AUTO_HALF_HZ_LPM3: u16 = 0x20FF;
/// Start auto mode at 1 measurement per second.
pub const AUTO_ONE_HZ_LPM0: u16 = 0x2130;
pub const AUTO_ONE_HZ_LPM1: u16 = 0x2126;
pub const AUTO_ONE_HZ_LPM2: u16 = 0x212D;
pub const AUTO_ONE_HZ_LPM3: u16 = 0x21FF;
/// Start auto mode at 2 measurements per second.
pub const AUTO_TWO_HZ_LPM0: u16 = 0x2236;
pub const AUTO_TWO_HZ_LPM1: u16 = 0x2220;
pub const AUTO_TWO_HZ_LPM2: u16 = 0x222B;
pub const AUTO_TWO_HZ_LPM3: u16 = 0x22FF;
/// Start auto mode at 4 measurements per second.
pub const AUTO_FOUR_HZ_LPM0: u16 = 0x2334;
pub const AUTO_FOUR_HZ_LPM1: u16 = 0x2322;
pub const AUTO_FOUR_HZ_LPM2: u16 = 0x2329;
pub const AUTO_FOUR_HZ_LPM3: u16 = 0x23FF;
/// Start auto mode at 10 measurements per second.
pub const AUTO_TEN_HZ_LPM0: u16 = 0x2737;
pub const AUTO_TEN_HZ_LPM1: u16 = 0x2721;
pub const AUTO_TEN_HZ_LPM2: u16 = 0x272A;
pub const AUTO_TEN_HZ_LPM3: u16 = 0x27FF;

/// Bit positions (least significant bit) of the status register's fields.
pub const STATUS_FIELD_LSBIT_AT_LEAST_ONE_ALERT: u16 = 15;
pub const STATUS_FIELD_LSBIT_HEATER_ENABLED: u16 = 13;
pub const STATUS_FIELD_LSBIT_RH_TRACKING_ALERT: u16 = 11;
pub const STATUS_FIELD_LSBIT_T_TRACKING_ALERT: u16 = 10;
pub const STATUS_FIELD_LSBIT_RH_HIGH_TRACKING_ALERT: u16 = 9;
pub const STATUS_FIELD_LSBIT_RH_LOW_TRACKING_ALERT: u16 = 8;
pub const STATUS_FIELD_LSBIT_T_HIGH_TRACKING_ALERT: u16 = 7;
pub const STATUS_FIELD_LSBIT_T_LOW_TRACKING_ALERT: u16 = 6;
pub const STATUS_FIELD_LSBIT_RESET_SINCE_CLEAR: u16 = 4;
pub const STATUS_FIELD_LSBIT_CHECKSUM_FAILURE: u16 = 0;
/// Widths in bits of the status register's fields.
pub const STATUS_FIELD_WIDTH_AT_LEAST_ONE_ALERT: u16 = 1;
pub const STATUS_FIELD_WIDTH_HEATER_ENABLED: u16 = 1;
pub const STATUS_FIELD_WIDTH_RH_TRACKING_ALERT: u16 = 1;
pub const STATUS_FIELD_WIDTH_T_TRACKING_ALERT: u16 = 1;
pub const STATUS_FIELD_WIDTH_RH_HIGH_TRACKING_ALERT: u16 = 1;
pub const STATUS_FIELD_WIDTH_RH_LOW_TRACKING_ALERT: u16 = 1;
pub const STATUS_FIELD_WIDTH_T_HIGH_TRACKING_ALERT: u16 = 1;
pub const STATUS_FIELD_WIDTH_T_LOW_TRACKING_ALERT: u16 = 1;
pub const STATUS_FIELD_WIDTH_RESET_SINCE_CLEAR: u16 = 1;
pub const STATUS_FIELD_WIDTH_CHECKSUM_FAILURE: u16 = 1;

/// Heater power settings written after the heater configuration command.
pub const HEATER_SETTING_QUARTER: u16 = 0x009F;
pub const HEATER_SETTING_HALF: u16 = 0x03FF;
pub const HEATER_SETTING_FULL: u16 = 0x3FFF;

/// The two bytes of a 16-bit value, most significant first.
pub open spec fn be_bytes(v: u16) -> Seq<u8> {
    seq![(v >> 8u16) as u8, v as u8]
}

/// Big-endian encoding of a 16-bit value.
pub fn u16_to_be_bytes(v: u16) -> (r: [u8; 2])
    ensures
        r@ == be_bytes(v),
{
    let r = [(v >> 8u16) as u8, v as u8];
    assert(r@ =~= be_bytes(v));
    r
}

/// 7-bit bus address, chosen by the ADDR1 and ADDR pins.
#[derive(Clone, Copy, Debug, PartialEq, Eq, Structural)]
pub enum I2cAddr {
    /// ADDR1 low, ADDR low
    Addr00,
    /// ADDR1 low, ADDR high
    Addr01,
    /// ADDR1 high, ADDR low
    Addr10,
    /// ADDR1 high, ADDR high
    Addr11,
}

impl I2cAddr {
    pub open spec fn spec_as_u8(self) -> u8 {
        match self {
            I2cAddr::Addr00 => 0x44,
            I2cAddr::Addr01 => 0x45,
            I2cAddr::Addr10 => 0x46,
            I2cAddr::Addr11 => 0x47,
        }
    }

    /// The address as the bus transport takes it.
    pub fn as_u8(&self) -> (r: u8)
        ensures
            r == self.spec_as_u8(),
    {
        match self {
            I2cAddr::Addr00 => 0x44,
            I2cAddr::Addr01 => 0x45,
            I2cAddr::Addr10 => 0x46,
            I2cAddr::Addr11 => 0x47,
        }
    }
}

/// Fixed commands of the device.
#[derive(Clone, Copy, Debug, PartialEq, Eq, Structural)]
pub enum Command {
    /// leave auto mode and return to sleep
    AutoExit,
    /// read the latest temperature and relative humidity of auto mode
    AutoReadTandRH,
    /// read the minimum temperature since auto mode started
    AutoReadMinT,
    /// read the maximum temperature since auto mode started
    AutoReadMaxT,
    /// read the minimum relative humidity since auto mode started
    AutoReadMinRH,
    /// read the maximum relative humidity since auto mode started
    AutoReadMaxRH,
    /// switch the heater on
    HeaterEnable,
    /// switch the heater off
    HeaterDisable,
    /// set the heater's power, followed by a 2-byte setting
    HeaterConfig,
    /// read the status register
    StatusRead,
    /// clear the status register
    StatusClear,
    /// read bytes 1 and 0 of the serial number
    SerialID10,
    /// read bytes 3 and 2 of the serial number
    SerialID32,
    /// read bytes 5 and 4 of the serial number
    SerialID54,
    /// read the manufacturer ID
    ManufacturerID,
    /// reset the device
    SoftReset,
}

impl Command {
    pub open spec fn spec_code(self) -> u16 {
        match self {
            Command::AutoExit => 0x3093,
            Command::AutoReadTandRH => 0xE000,
            Command::AutoReadMinT => 0xE002,
            Command::AutoReadMaxT => 0xE003,
            Command::AutoReadMinRH => 0xE004,
            Command::AutoReadMaxRH => 0xE005,
            Command::HeaterEnable => 0x306D,
            Command::HeaterDisable => 0x3066,
            Command::HeaterConfig => 0x306E,
            Command::StatusRead => 0xF32D,
            Command::StatusClear => 0x3041,
            Command::SerialID10 => 0x3683,
            Command::SerialID32 => 0x3684,
            Command::SerialID54 => 0x3685,
            Command::ManufacturerID => 0x3781,
            Command::SoftReset => 0x30A2,
        }
    }

    /// The 16-bit command code.
    pub fn code(&self) -> (r: u16)
        ensures
            r == self.spec_code(),
    {
        match self {
            Command::AutoExit => 0x3093,
            Command::AutoReadTandRH => 0xE000,
            Command::AutoReadMinT => 0xE002,
            Command::AutoReadMaxT => 0xE003,
            Command::AutoReadMinRH => 0xE004,
            Command::AutoReadMaxRH => 0xE005,
            Command::HeaterEnable => 0x306D,
            Command::HeaterDisable => 0x3066,
            Command::HeaterConfig => 0x306E,
            Command::StatusRead => 0xF32D,
            Command::StatusClear => 0x3041,
            Command::SerialID10 => 0x3683,
            Command::SerialID32 => 0x3684,
            Command::SerialID54 => 0x3685,
            Command::ManufacturerID => 0x3781,
            Command::SoftReset => 0x30A2,
        }
    }

    /// The command as it goes on the wire.
    pub fn to_be_bytes(&self) -> (r: [u8; 2])
        ensures
            r@ == be_bytes(self.spec_code()),
    {
        u16_to_be_bytes(self.code())
    }
}

/// How often the device samples: once on demand, or periodically in auto mode.
#[derive(Clone, Copy, Debug, PartialEq, Eq, Structural)]
pub enum SampleRate {
    OneShot,
    /// one measurement every 2 seconds
    HalfHz,
    OneHz,
    TwoHz,
    FourHz,
    TenHz,
}

/// Trade-off between noise and power: more averaging in the lower modes.
#[derive(Clone, Copy, Debug, PartialEq, Eq, Structural)]
pub enum LowPowerMode {
    /// lowest noise, highest power
    Lpm0,
    Lpm1,
    Lpm2,
    /// lowest power, highest noise
    Lpm3,
}

/// Code of the command that starts sampling at a rate in a power mode.
pub open spec fn sampling_code(rate: SampleRate, mode: LowPowerMode) -> u16 {
    let row = match rate {
        SampleRate::OneShot => seq![ONE_SHOT_LPM0, ONE_SHOT_LPM1, ONE_SHOT_LPM2, ONE_SHOT_LPM3],
        SampleRate::HalfHz => seq![AUTO_HALF_HZ_LPM0, AUTO_HALF_HZ_LPM1, AUTO_HALF_HZ_LPM2, AUTO_HALF_HZ_LPM3],
        SampleRate::OneHz => seq![AUTO_ONE_HZ_LPM0, AUTO_ONE_HZ_LPM1, AUTO_ONE_HZ_LPM2, AUTO_ONE_HZ_LPM3],
        SampleRate::TwoHz => seq![AUTO_TWO_HZ_LPM0, AUTO_TWO_HZ_LPM1, AUTO_TWO_HZ_LPM2, AUTO_TWO_HZ_LPM3],
        SampleRate::FourHz => seq![AUTO_FOUR_HZ_LPM0, AUTO_FOUR_HZ_LPM1, AUTO_FOUR_HZ_LPM2, AUTO_FOUR_HZ_LPM3],
        SampleRate::TenHz => seq![AUTO_TEN_HZ_LPM0, AUTO_TEN_HZ_LPM1, AUTO_TEN_HZ_LPM2, AUTO_TEN_HZ_LPM3],
    };
    match mode {
        LowPowerMode::Lpm0 => row[0],
        LowPowerMode::Lpm1 => row[1],
        LowPowerMode::Lpm2 => row[2],
        LowPowerMode::Lpm3 => row[3],
    }
}

/// The command that starts sampling at `sample_rate` in `low_power_mode`.
pub fn start_sampling_command(sample_rate: SampleRate, low_power_mode: LowPowerMode) -> (r: u16)
    ensures
        r == sampling_code(sample_rate, low_power_mode),
{
    let row: [u16; 4] = match sample_rate {
        SampleRate::OneShot => [ONE_SHOT_LPM0, ONE_SHOT_LPM1, ONE_SHOT_LPM2, ONE_SHOT_LPM3],
        SampleRate::HalfHz => [AUTO_HALF_HZ_LPM0, AUTO_HALF_HZ_LPM1, AUTO_HALF_HZ_LPM2, AUTO_HALF_HZ_LPM3],
        SampleRate::OneHz => [AUTO_ONE_HZ_LPM0, AUTO_ONE_HZ_LPM1, AUTO_ONE_HZ_LPM2, AUTO_ONE_HZ_LPM3],
        SampleRate::TwoHz => [AUTO_TWO_HZ_LPM0, AUTO_TWO_HZ_LPM1, AUTO_TWO_HZ_LPM2, AUTO_TWO_HZ_LPM3],
        SampleRate::FourHz => [AUTO_FOUR_HZ_LPM0, AUTO_FOUR_HZ_LPM1, AUTO_FOUR_HZ_LPM2, AUTO_FOUR_HZ_LPM3],
        SampleRate::TenHz => [AUTO_TEN_HZ_LPM0, AUTO_TEN_HZ_LPM1, AUTO_TEN_HZ_LPM2, AUTO_TEN_HZ_LPM3],
    };
    let col: usize = match low_power_mode {
        LowPowerMode::Lpm0 => 0,
        LowPowerMode::Lpm1 => 1,
        LowPowerMode::Lpm2 => 2,
        LowPowerMode::Lpm3 => 3,
    };
    row[col]
}

/// Power of the condensation heater.
#[derive(Clone, Copy, Debug, PartialEq, Eq, Structural)]
pub enum HeaterLevel {
    Off,
    Quarter,
    Half,
    Full,
}

impl HeaterLevel {
    pub open spec fn spec_setting(self) -> Option<u16> {
        match self {
            HeaterLevel::Off => None,
            HeaterLevel::Quarter => Some(HEATER_SETTING_QUARTER),
            HeaterLevel::Half => Some(HEATER_SETTING_HALF),
            HeaterLevel::Full => Some(HEATER_SETTING_FULL),
        }
    }

    /// The value written with the heater configuration command; `None` when off.
    pub fn setting(&self) -> (r: Option<u16>)
        ensures
            r == self.spec_setting(),
    {
        match self {
            HeaterLevel::Off => None,
            HeaterLevel::Quarter => Some(HEATER_SETTING_QUARTER),
            HeaterLevel::Half => Some(HEATER_SETTING_HALF),
            HeaterLevel::Full => Some(HEATER_SETTING_FULL),
        }
    }
}

/// Which auto-mode result register to read.
#[derive(Clone, Copy, Debug, PartialEq, Eq, Structural)]
pub enum AutoReadTarget {
    LastTempAndRH,
    MinTemp,
    MaxTemp,
    MinRH,
    MaxRH,
}

impl AutoReadTarget {
    pub open spec fn spec_command(self) -> Command {
        match self {
            AutoReadTarget::LastTempAndRH => Command::AutoReadTandRH,
            AutoReadTarget::MinTemp => Command::AutoReadMinT,
            AutoReadTarget::MaxTemp => Command::AutoReadMaxT,
            AutoReadTarget::MinRH => Command::AutoReadMinRH,
            AutoReadTarget::MaxRH => Command::AutoReadMaxRH,
        }
    }

    pub open spec fn spec_word_count(self) -> usize {
        match self {
            AutoReadTarget::LastTempAndRH => 2,
            _ => 1,
        }
    }

    /// The command that reads this register.
    pub fn command(&self) -> (r: Command)
        ensures
            r == self.spec_command(),
    {
        match self {
            AutoReadTarget::LastTempAndRH => Command::AutoReadTandRH,
            AutoReadTarget::MinTemp => Command::AutoReadMinT,
            AutoReadTarget::MaxTemp => Command::AutoReadMaxT,
            AutoReadTarget::MinRH => Command::AutoReadMinRH,
            AutoReadTarget::MaxRH => Command::AutoReadMaxRH,
        }
    }

    /// Number of words the register holds: two for temperature and humidity
    /// together, one for a single extreme.
    pub fn word_count(&self) -> (r: usize)
        ensures
            r == self.spec_word_count(),
    {
        match self {
            AutoReadTarget::LastTempAndRH => 2,
            _ => 1,
        }
    }
}

} // verus!
