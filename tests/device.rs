use hdc302x::checksum::checksum;
use hdc302x::hw_def::{
    start_sampling_command, u16_to_be_bytes, AutoReadTarget, Command, HeaterLevel, I2cAddr,
    LowPowerMode, SampleRate,
};
use hdc302x::ops::{BusOp, Operation};
use hdc302x::transaction::{BusEvent, BusRequest, Transaction, TxStep};
use hdc302x::types::{Hdc302x, RawDatum, RawTempAndRH, StatusBits};

fn cmd(code: u16, words: usize) -> BusOp {
    BusOp::Command { code, words }
}

const NONE: StatusBits = StatusBits {
    at_least_one_alert: false,
    heater_enabled: false,
    rh_tracking_alert: false,
    t_tracking_alert: false,
    rh_high_tracking_alert: false,
    rh_low_tracking_alert: false,
    t_high_tracking_alert: false,
    t_low_tracking_alert: false,
    reset_since_clear: false,
    checksum_failure: false,
};

#[test]
fn status_heater_bit_alone() {
    let expected = StatusBits { heater_enabled: true, ..NONE };
    assert_eq!(StatusBits::decode(1 << 13), expected);
    assert_eq!(StatusBits::from(0x2000u16), expected);
}

#[test]
fn status_each_bit_alone() {
    assert_eq!(StatusBits::decode(0x8000), StatusBits { at_least_one_alert: true, ..NONE });
    assert_eq!(StatusBits::decode(0x0800), StatusBits { rh_tracking_alert: true, ..NONE });
    assert_eq!(StatusBits::decode(0x0400), StatusBits { t_tracking_alert: true, ..NONE });
    assert_eq!(StatusBits::decode(0x0200), StatusBits { rh_high_tracking_alert: true, ..NONE });
    assert_eq!(StatusBits::decode(0x0100), StatusBits { rh_low_tracking_alert: true, ..NONE });
    assert_eq!(StatusBits::decode(0x0080), StatusBits { t_high_tracking_alert: true, ..NONE });
    assert_eq!(StatusBits::decode(0x0040), StatusBits { t_low_tracking_alert: true, ..NONE });
    assert_eq!(StatusBits::decode(0x0010), StatusBits { reset_since_clear: true, ..NONE });
    assert_eq!(StatusBits::decode(0x0001), StatusBits { checksum_failure: true, ..NONE });
}

#[test]
fn status_empty_and_full() {
    assert_eq!(StatusBits::decode(0), NONE);
    assert_eq!(StatusBits::decode(0x502E), NONE);
    let all = StatusBits::decode(0xFFFF);
    assert!(all.at_least_one_alert && all.heater_enabled && all.reset_since_clear && all.checksum_failure);
    assert!(all.t_low_tracking_alert && all.rh_high_tracking_alert);
}

#[test]
fn command_codes_big_endian() {
    assert_eq!(Command::HeaterDisable.to_be_bytes(), [0x30, 0x66]);
    assert_eq!(Command::StatusRead.to_be_bytes(), [0xF3, 0x2D]);
    assert_eq!(Command::SoftReset.code(), 0x30A2);
    assert_eq!(u16_to_be_bytes(0x1234), [0x12, 0x34]);
}

#[test]
fn sampling_commands() {
    assert_eq!(start_sampling_command(SampleRate::OneShot, LowPowerMode::Lpm0), 0x2400);
    assert_eq!(start_sampling_command(SampleRate::OneShot, LowPowerMode::Lpm3), 0x24FF);
    assert_eq!(start_sampling_command(SampleRate::HalfHz, LowPowerMode::Lpm1), 0x2024);
    assert_eq!(start_sampling_command(SampleRate::TenHz, LowPowerMode::Lpm2), 0x272A);
    assert_eq!(start_sampling_command(SampleRate::OneHz, LowPowerMode::Lpm0), 0x2130);
}

#[test]
fn device_address() {
    let dev = Hdc302x::new((), (), I2cAddr::Addr01);
    assert_eq!(dev.address(), 0x45);
    assert_eq!(I2cAddr::Addr00.as_u8(), 0x44);
    assert_eq!(I2cAddr::Addr11.as_u8(), 0x47);
}

#[test]
fn auto_read_min_temp_reads_one_word() {
    assert_eq!(Operation::AutoRead(AutoReadTarget::MinTemp).steps(), vec![cmd(0xE002, 1)]);
    assert_eq!(RawDatum::from_words(AutoReadTarget::MinTemp, &[0x1111]), RawDatum::MinTemp(0x1111));
}

#[test]
fn auto_read_last_reads_two_words() {
    assert_eq!(Operation::AutoRead(AutoReadTarget::LastTempAndRH).steps(), vec![cmd(0xE000, 2)]);
    assert_eq!(
        RawDatum::from_words(AutoReadTarget::LastTempAndRH, &[1, 2]),
        RawDatum::TempAndRH(RawTempAndRH { temperature: 1, humidity: 2 })
    );
}

#[test]
fn auto_read_extremes() {
    assert_eq!(Operation::AutoRead(AutoReadTarget::MaxRH).steps(), vec![cmd(0xE005, 1)]);
    assert_eq!(RawDatum::from_words(AutoReadTarget::MaxTemp, &[7]), RawDatum::MaxTemp(7));
    assert_eq!(RawDatum::from_words(AutoReadTarget::MinRH, &[8]), RawDatum::MinRH(8));
    assert_eq!(RawDatum::from_words(AutoReadTarget::MaxRH, &[9]), RawDatum::MaxRH(9));
}

#[test]
fn heater_off_only_disables() {
    assert_eq!(Operation::Heater(HeaterLevel::Off).steps(), vec![cmd(0x3066, 0)]);
}

#[test]
fn heater_on_disables_configures_enables() {
    assert_eq!(
        Operation::Heater(HeaterLevel::Full).steps(),
        vec![cmd(0x3066, 0), BusOp::Configure { code: 0x306E, setting: 0x3FFF }, cmd(0x306D, 0)]
    );
    assert_eq!(
        Operation::Heater(HeaterLevel::Quarter).steps(),
        vec![cmd(0x3066, 0), BusOp::Configure { code: 0x306E, setting: 0x009F }, cmd(0x306D, 0)]
    );
    assert_eq!(BusOp::config_bytes(0x306E, 0x03FF), [0x30, 0x6E, 0x03, 0xFF]);
}

#[test]
fn other_operation_plans() {
    assert_eq!(Operation::ReadStatus(false).steps(), vec![cmd(0xF32D, 1)]);
    assert_eq!(Operation::ReadStatus(true).steps(), vec![cmd(0xF32D, 1), cmd(0x3041, 0)]);
    assert_eq!(
        Operation::ReadSerialNumber.steps(),
        vec![cmd(0x3683, 1), cmd(0x3684, 1), cmd(0x3685, 1)]
    );
    assert_eq!(Operation::ReadManufacturerId.steps(), vec![cmd(0x3781, 1)]);
    assert_eq!(Operation::SoftwareReset.steps(), vec![cmd(0x30A2, 0)]);
    assert_eq!(Operation::AutoStop.steps(), vec![cmd(0x3093, 0)]);
    assert_eq!(
        Operation::AutoStart(SampleRate::FourHz, LowPowerMode::Lpm3).steps(),
        vec![cmd(0x23FF, 0)]
    );
}

#[test]
fn one_shot_end_to_end() {
    let steps = Operation::OneShot(LowPowerMode::Lpm0).steps();
    assert_eq!(steps, vec![cmd(0x2400, 2)]);
    let (code, words) = match steps[0] {
        BusOp::Command { code, words } => (code, words),
        other => panic!("unexpected {:?}", other),
    };
    let t = Transaction::start(u16_to_be_bytes(code), words);
    assert!(matches!(t.request(), BusRequest::WriteRead { bytes: [0x24, 0x00], read_len: 6 }));
    let reply = vec![0x61, 0xA8, checksum([0x61, 0xA8]), 0x5C, 0x2F, checksum([0x5C, 0x2F])];
    let words = match t.handle::<()>(BusEvent::Received(reply)) {
        TxStep::Done(Ok(words)) => words,
        other => panic!("unexpected {:?}", other),
    };
    assert_eq!(
        RawDatum::from_words(AutoReadTarget::LastTempAndRH, &words),
        RawDatum::TempAndRH(RawTempAndRH { temperature: 0x61A8, humidity: 0x5C2F })
    );
}
