//! The device's logical operations, each as the sequence of bus operations
//! that carries it out, and the assembly of their results.
//!
//! A plan runs in order and stops at the first error, which goes to the caller
//! unchanged. Each `Command` step is one [`crate::transaction::Transaction`].
use vstd::prelude::*;
use crate::hw_def::{
    be_bytes, sampling_code, u16_to_be_bytes, start_sampling_command, AutoReadTarget, Command,
    HeaterLevel, LowPowerMode, SampleRate,
};
use crate::types::{RawDatum, RawTempAndRH};

verus! {

/// One bus operation of a plan.
#[derive(Clone, Copy, Debug, PartialEq, Eq, Structural)]
pub enum BusOp {
    /// send command `code` and read `words` checksummed words back
    Command { code: u16, words: usize },
    /// write command `code` followed by the 2-byte `setting`, with no response
    Configure { code: u16, setting: u16 },
}

impl BusOp {
    pub open spec fn spec_words(self) -> nat {
        match self {
            BusOp::Command { words, .. } => words as nat,
            BusOp::Configure { .. } => 0,
        }
    }

    /// The four bytes of a configuration write: command, then setting, both
    /// big-endian.
    pub fn config_bytes(code: u16, setting: u16) -> (r: [u8; 4])
        ensures
            r@ == be_bytes(code) + be_bytes(setting),
    {
        let c = u16_to_be_bytes(code);
        let s = u16_to_be_bytes(setting);
        let r = [c[0], c[1], s[0], s[1]];
        assert(r@ =~= be_bytes(code) + be_bytes(setting));
        r
    }
}

/// A fixed command that returns `words` words.
pub open spec fn cmd(c: Command, words: usize) -> BusOp {
    BusOp::Command { code: c.spec_code(), words }
}

/// Number of words that a plan reads, over all its steps.
pub open spec fn words_read(steps: Seq<BusOp>) -> nat
    decreases steps.len(),
{
    if steps.len() == 0 {
        0
    } else {
        words_read(steps.drop_last()) + steps.last().spec_words()
    }
}

/// A logical operation of the device.
#[derive(Clone, Copy, Debug, PartialEq, Eq, Structural)]
pub enum Operation {
    /// one measurement on demand, in the given power mode
    OneShot(LowPowerMode),
    /// enter auto mode; the rate should not be `OneShot`
    AutoStart(SampleRate, LowPowerMode),
    /// leave auto mode
    AutoStop,
    /// read one auto-mode result register
    AutoRead(AutoReadTarget),
    /// set the condensation heater
    Heater(HeaterLevel),
    /// read the status register, then clear it when asked
    ReadStatus(bool),
    /// read the three words of the serial number
    ReadSerialNumber,
    /// read the manufacturer ID
    ReadManufacturerId,
    /// reset the device
    SoftwareReset,
}

impl Operation {
    /// The bus operations that carry out this operation, in order.
    pub open spec fn spec_steps(self) -> Seq<BusOp> {
        match self {
            Operation::OneShot(mode) => seq![
                BusOp::Command { code: sampling_code(SampleRate::OneShot, mode), words: 2 },
            ],
            Operation::AutoStart(rate, mode) => seq![
                BusOp::Command { code: sampling_code(rate, mode), words: 0 },
            ],
            Operation::AutoStop => seq![cmd(Command::AutoExit, 0)],
            Operation::AutoRead(target) => seq![
                cmd(target.spec_command(), target.spec_word_count()),
            ],
            Operation::Heater(level) => match level.spec_setting() {
                None => seq![cmd(Command::HeaterDisable, 0)],
                Some(setting) => seq![
                    cmd(Command::HeaterDisable, 0),
                    BusOp::Configure { code: Command::HeaterConfig.spec_code(), setting },
                    cmd(Command::HeaterEnable, 0),
                ],
            },
            Operation::ReadStatus(clear) => if clear {
                seq![cmd(Command::StatusRead, 1), cmd(Command::StatusClear, 0)]
            } else {
                seq![cmd(Command::StatusRead, 1)]
            },
            Operation::ReadSerialNumber => seq![
                cmd(Command::SerialID10, 1),
                cmd(Command::SerialID32, 1),
                cmd(Command::SerialID54, 1),
            ],
            Operation::ReadManufacturerId => seq![cmd(Command::ManufacturerID, 1)],
            Operation::SoftwareReset => seq![cmd(Command::SoftReset, 0)],
        }
    }

    /// The plan of this operation.
    pub fn steps(&self) -> (r: Vec<BusOp>)
        ensures
            r@ == self.spec_steps(),
    {
        let mut v: Vec<BusOp> = Vec::new();
        match *self {
            Operation::OneShot(mode) => {
                let code = start_sampling_command(SampleRate::OneShot, mode);
                v.push(BusOp::Command { code, words: 2 });
            },
            Operation::AutoStart(rate, mode) => {
                let code = start_sampling_command(rate, mode);
                v.push(BusOp::Command { code, words: 0 });
            },
            Operation::AutoStop => {
                v.push(BusOp::Command { code: Command::AutoExit.code(), words: 0 });
            },
            Operation::AutoRead(target) => {
                let code = target.command().code();
                v.push(BusOp::Command { code, words: target.word_count() });
            },
            Operation::Heater(level) => {
                v.push(BusOp::Command { code: Command::HeaterDisable.code(), words: 0 });
                if let Some(setting) = level.setting() {
                    v.push(BusOp::Configure { code: Command::HeaterConfig.code(), setting });
                    v.push(BusOp::Command { code: Command::HeaterEnable.code(), words: 0 });
                }
            },
            Operation::ReadStatus(clear) => {
                v.push(BusOp::Command { code: Command::StatusRead.code(), words: 1 });
                if clear {
                    v.push(BusOp::Command { code: Command::StatusClear.code(), words: 0 });
                }
            },
            Operation::ReadSerialNumber => {
                v.push(BusOp::Command { code: Command::SerialID10.code(), words: 1 });
                v.push(BusOp::Command { code: Command::SerialID32.code(), words: 1 });
                v.push(BusOp::Command { code: Command::SerialID54.code(), words: 1 });
            },
            Operation::ReadManufacturerId => {
                v.push(BusOp::Command { code: Command::ManufacturerID.code(), words: 1 });
            },
            Operation::SoftwareReset => {
                v.push(BusOp::Command { code: Command::SoftReset.code(), words: 0 });
            },
        }
        assert(v@ =~= self.spec_steps());
        v
    }
}

impl RawDatum {
    /// The reading that `target`'s words make.
    pub open spec fn spec_from_words(target: AutoReadTarget, words: Seq<u16>) -> RawDatum {
        match target {
            AutoReadTarget::LastTempAndRH => RawDatum::TempAndRH(
                RawTempAndRH { temperature: words[0], humidity: words[1] },
            ),
            AutoReadTarget::MinTemp => RawDatum::MinTemp(words[0]),
            AutoReadTarget::MaxTemp => RawDatum::MaxTemp(words[0]),
            AutoReadTarget::MinRH => RawDatum::MinRH(words[0]),
            AutoReadTarget::MaxRH => RawDatum::MaxRH(words[0]),
        }
    }

    /// Wraps the words read from `target` into the matching variant:
    /// temperature first, then humidity, for the pair.
    pub fn from_words(target: AutoReadTarget, words: &[u16]) -> (r: RawDatum)
        requires
            words@.len() == target.spec_word_count(),
        ensures
            r == RawDatum::spec_from_words(target, words@),
    {
        match target {
            AutoReadTarget::LastTempAndRH => RawDatum::TempAndRH(
                RawTempAndRH { temperature: words[0], humidity: words[1] },
            ),
            AutoReadTarget::MinTemp => RawDatum::MinTemp(words[0]),
            AutoReadTarget::MaxTemp => RawDatum::MaxTemp(words[0]),
            AutoReadTarget::MinRH => RawDatum::MinRH(words[0]),
            AutoReadTarget::MaxRH => RawDatum::MaxRH(words[0]),
        }
    }
}

/// Switching the heater off sends the disable command and nothing else; any
/// other level sends disable, then the configuration write with the level's
/// setting, then enable, in that order.
pub proof fn lemma_heater_plan(level: HeaterLevel)
    ensures
        level == HeaterLevel::Off ==> Operation::Heater(level).spec_steps() == seq![
            cmd(Command::HeaterDisable, 0),
        ],
        level != HeaterLevel::Off ==> Operation::Heater(level).spec_steps() == seq![
            cmd(Command::HeaterDisable, 0),
            BusOp::Configure {
                code: Command::HeaterConfig.spec_code(),
                setting: level.spec_setting()->Some_0,
            },
            cmd(Command::HeaterEnable, 0),
        ],
        words_read(Operation::Heater(level).spec_steps()) == 0,
{
    let steps = Operation::Heater(level).spec_steps();
    reveal_with_fuel(words_read, 4);
    if level != HeaterLevel::Off {
        assert(steps.drop_last().drop_last().drop_last() =~= Seq::<BusOp>::empty());
    } else {
        assert(steps.drop_last() =~= Seq::<BusOp>::empty());
    }
}

} // verus!
