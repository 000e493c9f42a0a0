//! The device handle, the error type, raw readings and the decoded status
//! register.
use vstd::prelude::*;
use crate::hw_def::{
    I2cAddr,
    STATUS_FIELD_LSBIT_AT_LEAST_ONE_ALERT,
    STATUS_FIELD_LSBIT_CHECKSUM_FAILURE,
    STATUS_FIELD_LSBIT_HEATER_ENABLED,
    STATUS_FIELD_LSBIT_RESET_SINCE_CLEAR,
    STATUS_FIELD_LSBIT_RH_HIGH_TRACKING_ALERT,
    STATUS_FIELD_LSBIT_RH_LOW_TRACKING_ALERT,
    STATUS_FIELD_LSBIT_RH_TRACKING_ALERT,
    STATUS_FIELD_LSBIT_T_HIGH_TRACKING_ALERT,
    STATUS_FIELD_LSBIT_T_LOW_TRACKING_ALERT,
    STATUS_FIELD_LSBIT_T_TRACKING_ALERT,
    STATUS_FIELD_WIDTH_AT_LEAST_ONE_ALERT,
    STATUS_FIELD_WIDTH_CHECKSUM_FAILURE,
    STATUS_FIELD_WIDTH_HEATER_ENABLED,
    STATUS_FIELD_WIDTH_RESET_SINCE_CLEAR,
    STATUS_FIELD_WIDTH_RH_HIGH_TRACKING_ALERT,
    STATUS_FIELD_WIDTH_RH_LOW_TRACKING_ALERT,
    STATUS_FIELD_WIDTH_RH_TRACKING_ALERT,
    STATUS_FIELD_WIDTH_T_HIGH_TRACKING_ALERT,
    STATUS_FIELD_WIDTH_T_LOW_TRACKING_ALERT,
    STATUS_FIELD_WIDTH_T_TRACKING_ALERT,
};

verus! {

/// HDC302x(-Q1) device driver: owns the bus, the delay source and the
/// device's address.
#[derive(Debug)]
pub struct Hdc302x<I2C, Delay> {
    pub i2c: I2C,
    pub delay: Delay,
    pub i2c_addr: I2cAddr,
}

impl<I2C, Delay> Hdc302x<I2C, Delay> {
    /// A handle for the device at `i2c_addr` on `i2c`.
    pub fn new(i2c: I2C, delay: Delay, i2c_addr: I2cAddr) -> (r: Self)
        ensures
            r.i2c == i2c,
            r.delay == delay,
            r.i2c_addr == i2c_addr,
    {
        Hdc302x { i2c, delay, i2c_addr }
    }

    /// The 7-bit bus address of the device.
    pub fn address(&self) -> (r: u8)
        ensures
            r == self.i2c_addr.spec_as_u8(),
    {
        self.i2c_addr.as_u8()
    }
}

/// All possible errors in this crate
#[derive(Debug)]
pub enum Error<E> {
    /// I²C communication error
    I2c(E),
    /// Invalid input data provided
    InvalidInputData,
    /// Failure of a checksum from the device was detected
    CrcMismatch,
}

/// Raw (still in u16 format) temperature and/or humidity from the device
#[derive(Clone, Copy, Debug, PartialEq, Eq, Structural)]
pub enum RawDatum {
    /// temperature and relative humidity from one-shot or auto mode
    TempAndRH(RawTempAndRH),
    /// minimum temperature since auto mode was enabled
    MinTemp(u16),
    /// maximum temperature since auto mode was enabled
    MaxTemp(u16),
    /// minimum relative humidity since auto mode was enabled
    MinRH(u16),
    /// maximum relative humidity since auto mode was enabled
    MaxRH(u16),
}

/// Raw (still in u16 format) temperature and relative humidity from the device
#[derive(Clone, Copy, Debug, PartialEq, Eq, Structural)]
pub struct RawTempAndRH {
    /// unprocessed temperature
    pub temperature: u16,
    /// unprocessed relative humidity
    pub humidity: u16,
}

/// Whether the field of `width` bits at bit `lsb` of `raw` is non-zero.
pub open spec fn status_field(raw: u16, lsb: u16, width: u16) -> bool {
    (raw >> lsb) & (((1u16 << width) - 1) as u16) != 0
}

/// Reads the field of `width` bits at bit `lsb` of `raw` as a flag.
pub fn field_is_set(raw: u16, lsb: u16, width: u16) -> (r: bool)
    requires
        lsb < 16,
        1 <= width < 16,
    ensures
        r == status_field(raw, lsb, width),
{
    assert(1u16 <= width < 16u16 ==> (1u16 << width) >= 1u16) by (bit_vector);
    (raw >> lsb) & ((1u16 << width) - 1) != 0
}

/// Status bits from the device
#[derive(Clone, Copy, Debug, PartialEq, Eq, Structural)]
pub struct StatusBits {
    /// at least one alert is active
    pub at_least_one_alert: bool,
    /// heater is enabled
    pub heater_enabled: bool,
    /// relative humidity tracking alert
    pub rh_tracking_alert: bool,
    /// temperature tracking alert
    pub t_tracking_alert: bool,
    /// relative humidity high tracking alert
    pub rh_high_tracking_alert: bool,
    /// relative humidity low tracking alert
    pub rh_low_tracking_alert: bool,
    /// temperature high tracking alert
    pub t_high_tracking_alert: bool,
    /// temperature low tracking alert
    pub t_low_tracking_alert: bool,
    /// reset (power-on or software) detected since last clear of status register
    pub reset_since_clear: bool,
    /// failure of a checksum from the driver was detected
    pub checksum_failure: bool,
}

impl StatusBits {
    /// The flags that a raw status register holds.
    pub open spec fn spec_decode(raw: u16) -> StatusBits {
        StatusBits {
            at_least_one_alert: status_field(raw, STATUS_FIELD_LSBIT_AT_LEAST_ONE_ALERT, STATUS_FIELD_WIDTH_AT_LEAST_ONE_ALERT),
            heater_enabled: status_field(raw, STATUS_FIELD_LSBIT_HEATER_ENABLED, STATUS_FIELD_WIDTH_HEATER_ENABLED),
            rh_tracking_alert: status_field(raw, STATUS_FIELD_LSBIT_RH_TRACKING_ALERT, STATUS_FIELD_WIDTH_RH_TRACKING_ALERT),
            t_tracking_alert: status_field(raw, STATUS_FIELD_LSBIT_T_TRACKING_ALERT, STATUS_FIELD_WIDTH_T_TRACKING_ALERT),
            rh_high_tracking_alert: status_field(raw, STATUS_FIELD_LSBIT_RH_HIGH_TRACKING_ALERT, STATUS_FIELD_WIDTH_RH_HIGH_TRACKING_ALERT),
            rh_low_tracking_alert: status_field(raw, STATUS_FIELD_LSBIT_RH_LOW_TRACKING_ALERT, STATUS_FIELD_WIDTH_RH_LOW_TRACKING_ALERT),
            t_high_tracking_alert: status_field(raw, STATUS_FIELD_LSBIT_T_HIGH_TRACKING_ALERT, STATUS_FIELD_WIDTH_T_HIGH_TRACKING_ALERT),
            t_low_tracking_alert: status_field(raw, STATUS_FIELD_LSBIT_T_LOW_TRACKING_ALERT, STATUS_FIELD_WIDTH_T_LOW_TRACKING_ALERT),
            reset_since_clear: status_field(raw, STATUS_FIELD_LSBIT_RESET_SINCE_CLEAR, STATUS_FIELD_WIDTH_RESET_SINCE_CLEAR),
            checksum_failure: status_field(raw, STATUS_FIELD_LSBIT_CHECKSUM_FAILURE, STATUS_FIELD_WIDTH_CHECKSUM_FAILURE),
        }
    }

    /// Decodes a raw status register into its flags.
    pub fn decode(raw: u16) -> (r: StatusBits)
        ensures
            r == StatusBits::spec_decode(raw),
    {
        StatusBits {
            at_least_one_alert: field_is_set(raw, STATUS_FIELD_LSBIT_AT_LEAST_ONE_ALERT, STATUS_FIELD_WIDTH_AT_LEAST_ONE_ALERT),
            heater_enabled: field_is_set(raw, STATUS_FIELD_LSBIT_HEATER_ENABLED, STATUS_FIELD_WIDTH_HEATER_ENABLED),
            rh_tracking_alert: field_is_set(raw, STATUS_FIELD_LSBIT_RH_TRACKING_ALERT, STATUS_FIELD_WIDTH_RH_TRACKING_ALERT),
            t_tracking_alert: field_is_set(raw, STATUS_FIELD_LSBIT_T_TRACKING_ALERT, STATUS_FIELD_WIDTH_T_TRACKING_ALERT),
            rh_high_tracking_alert: field_is_set(raw, STATUS_FIELD_LSBIT_RH_HIGH_TRACKING_ALERT, STATUS_FIELD_WIDTH_RH_HIGH_TRACKING_ALERT),
            rh_low_tracking_alert: field_is_set(raw, STATUS_FIELD_LSBIT_RH_LOW_TRACKING_ALERT, STATUS_FIELD_WIDTH_RH_LOW_TRACKING_ALERT),
            t_high_tracking_alert: field_is_set(raw, STATUS_FIELD_LSBIT_T_HIGH_TRACKING_ALERT, STATUS_FIELD_WIDTH_T_HIGH_TRACKING_ALERT),
            t_low_tracking_alert: field_is_set(raw, STATUS_FIELD_LSBIT_T_LOW_TRACKING_ALERT, STATUS_FIELD_WIDTH_T_LOW_TRACKING_ALERT),
            reset_since_clear: field_is_set(raw, STATUS_FIELD_LSBIT_RESET_SINCE_CLEAR, STATUS_FIELD_WIDTH_RESET_SINCE_CLEAR),
            checksum_failure: field_is_set(raw, STATUS_FIELD_LSBIT_CHECKSUM_FAILURE, STATUS_FIELD_WIDTH_CHECKSUM_FAILURE),
        }
    }
}

impl From<u16> for StatusBits {
    fn from(raw: u16) -> (r: StatusBits)
        ensures
            r == StatusBits::spec_decode(raw),
    {
        StatusBits::decode(raw)
    }
}

impl vstd::std_specs::convert::FromSpecImpl<u16> for StatusBits {
    open spec fn obeys_from_spec() -> bool {
        true
    }

    open spec fn from_spec(raw: u16) -> StatusBits {
        StatusBits::spec_decode(raw)
    }
}

/// The bit at `lsb` when `flag` is set, else nothing.
pub open spec fn flag_bit(flag: bool, lsb: u16) -> u16 {
    if flag { (1u16 << lsb) } else { 0u16 }
}

impl StatusBits {
    /// The status register that holds exactly these flags.
    pub open spec fn spec_to_raw(self) -> u16 {
        flag_bit(self.at_least_one_alert, STATUS_FIELD_LSBIT_AT_LEAST_ONE_ALERT)
            | flag_bit(self.heater_enabled, STATUS_FIELD_LSBIT_HEATER_ENABLED)
            | flag_bit(self.rh_tracking_alert, STATUS_FIELD_LSBIT_RH_TRACKING_ALERT)
            | flag_bit(self.t_tracking_alert, STATUS_FIELD_LSBIT_T_TRACKING_ALERT)
            | flag_bit(self.rh_high_tracking_alert, STATUS_FIELD_LSBIT_RH_HIGH_TRACKING_ALERT)
            | flag_bit(self.rh_low_tracking_alert, STATUS_FIELD_LSBIT_RH_LOW_TRACKING_ALERT)
            | flag_bit(self.t_high_tracking_alert, STATUS_FIELD_LSBIT_T_HIGH_TRACKING_ALERT)
            | flag_bit(self.t_low_tracking_alert, STATUS_FIELD_LSBIT_T_LOW_TRACKING_ALERT)
            | flag_bit(self.reset_since_clear, STATUS_FIELD_LSBIT_RESET_SINCE_CLEAR)
            | flag_bit(self.checksum_failure, STATUS_FIELD_LSBIT_CHECKSUM_FAILURE)
    }
}

/// Ten values, each zero or its own single bit: bit `k` of their union is set
/// exactly when the value that owns bit `k` is non-zero.
proof fn lemma_disjoint_bits(a: u16, b: u16, c: u16, d: u16, e: u16, f: u16, g: u16, h: u16, i: u16, j: u16) by (bit_vector)
    requires
        a == 0 || a == 0x8000,
        b == 0 || b == 0x2000,
        c == 0 || c == 0x0800,
        d == 0 || d == 0x0400,
        e == 0 || e == 0x0200,
        f == 0 || f == 0x0100,
        g == 0 || g == 0x0080,
        h == 0 || h == 0x0040,
        i == 0 || i == 0x0010,
        j == 0 || j == 0x0001,
    ensures
        ((a | b | c | d | e | f | g | h | i | j) >> 15u16) & 1 != 0 <==> a != 0,
        ((a | b | c | d | e | f | g | h | i | j) >> 13u16) & 1 != 0 <==> b != 0,
        ((a | b | c | d | e | f | g | h | i | j) >> 11u16) & 1 != 0 <==> c != 0,
        ((a | b | c | d | e | f | g | h | i | j) >> 10u16) & 1 != 0 <==> d != 0,
        ((a | b | c | d | e | f | g | h | i | j) >> 9u16) & 1 != 0 <==> e != 0,
        ((a | b | c | d | e | f | g | h | i | j) >> 8u16) & 1 != 0 <==> f != 0,
        ((a | b | c | d | e | f | g | h | i | j) >> 7u16) & 1 != 0 <==> g != 0,
        ((a | b | c | d | e | f | g | h | i | j) >> 6u16) & 1 != 0 <==> h != 0,
        ((a | b | c | d | e | f | g | h | i | j) >> 4u16) & 1 != 0 <==> i != 0,
        ((a | b | c | d | e | f | g | h | i | j) >> 0u16) & 1 != 0 <==> j != 0,
{
}

/// Decoding a status register built from any set of flags gives those flags
/// back: the ten fields sit at disjoint bits.
pub proof fn lemma_status_round_trip(s: StatusBits)
    ensures
        StatusBits::spec_decode(s.spec_to_raw()) == s,
{
    assert(((1u16 << 1u16) - 1) as u16 == 1u16) by (bit_vector);
    assert((1u16 << 15u16) == 0x8000) by (bit_vector);
    assert((1u16 << 13u16) == 0x2000) by (bit_vector);
    assert((1u16 << 11u16) == 0x0800) by (bit_vector);
    assert((1u16 << 10u16) == 0x0400) by (bit_vector);
    assert((1u16 << 9u16) == 0x0200) by (bit_vector);
    assert((1u16 << 8u16) == 0x0100) by (bit_vector);
    assert((1u16 << 7u16) == 0x0080) by (bit_vector);
    assert((1u16 << 6u16) == 0x0040) by (bit_vector);
    assert((1u16 << 4u16) == 0x0010) by (bit_vector);
    assert((1u16 << 0u16) == 0x0001) by (bit_vector);
    lemma_disjoint_bits(
        flag_bit(s.at_least_one_alert, STATUS_FIELD_LSBIT_AT_LEAST_ONE_ALERT),
        flag_bit(s.heater_enabled, STATUS_FIELD_LSBIT_HEATER_ENABLED),
        flag_bit(s.rh_tracking_alert, STATUS_FIELD_LSBIT_RH_TRACKING_ALERT),
        flag_bit(s.t_tracking_alert, STATUS_FIELD_LSBIT_T_TRACKING_ALERT),
        flag_bit(s.rh_high_tracking_alert, STATUS_FIELD_LSBIT_RH_HIGH_TRACKING_ALERT),
        flag_bit(s.rh_low_tracking_alert, STATUS_FIELD_LSBIT_RH_LOW_TRACKING_ALERT),
        flag_bit(s.t_high_tracking_alert, STATUS_FIELD_LSBIT_T_HIGH_TRACKING_ALERT),
        flag_bit(s.t_low_tracking_alert, STATUS_FIELD_LSBIT_T_LOW_TRACKING_ALERT),
        flag_bit(s.reset_since_clear, STATUS_FIELD_LSBIT_RESET_SINCE_CLEAR),
        flag_bit(s.checksum_failure, STATUS_FIELD_LSBIT_CHECKSUM_FAILURE),
    );
}

} // verus!
