//! The register map of the power supply: which holding register a command
//! writes, with which value, and what the registers read back mean.
//!
//! The supply counts voltage in hundredths of a volt and current in
//! milliamperes, each in an unsigned 16-bit register. The library counts
//! voltage in millivolts and current in the value units of a DC milliampere
//! reading.

use crate::owon::reading::VALUE_SCALE;
use crate::reform::{
    lemma_never_above_rated, spec_step, Action, Command, ControlState, LoopEvent, ReformConfig,
};
use vstd::arithmetic::div_mod::{lemma_div_is_ordered, lemma_fundamental_div_mod, lemma_mod_bound};
use vstd::prelude::*;

verus! {

/// First of the four registers that identify the device.
pub const REG_IDENTITY: u16 = 0;

/// Number of registers that identify the device.
pub const IDENTITY_LEN: u16 = 4;

/// Output voltage setting.
pub const REG_VOLTAGE_SET: u16 = 8;

/// Output current setting.
pub const REG_CURRENT_SET: u16 = 9;

/// Measured output voltage; the measured current follows it.
pub const REG_MEASURED: u16 = 10;

/// Output switch.
pub const REG_OUTPUT: u16 = 18;

/// Over-voltage protection threshold.
pub const REG_VOLTAGE_PROTECTION: u16 = 82;

/// Over-current protection threshold.
pub const REG_CURRENT_PROTECTION: u16 = 83;

/// Millivolts in one count of a voltage register.
pub const MILLIVOLTS_PER_COUNT: i64 = 10;

/// Value units in one count of a current register (one milliampere).
pub const CURRENT_PER_COUNT: i64 = VALUE_SCALE;

/// One write of a holding register.
#[derive(Debug, Clone, Copy, PartialEq, Eq, Structural)]
pub struct RegisterWrite {
    pub register: u16,
    pub value: u16,
}

/// What the identity registers say.
#[derive(Debug, Clone, Copy, PartialEq, Eq, Structural)]
pub struct Identity {
    /// Model number.
    pub model: u16,
    /// Serial number.
    pub serial: u32,
    /// Firmware version, in hundredths.
    pub firmware: u16,
}

/// The count that stands for `quantity` in a register with `per_count` of
/// the quantity in each count: the whole counts that fit, none for a
/// quantity below zero, and the largest count where more would not fit.
pub open spec fn spec_counts(quantity: i64, per_count: i64) -> u16
    recommends
        per_count > 0,
{
    if quantity <= 0 {
        0
    } else if (quantity as int) / (per_count as int) >= u16::MAX {
        u16::MAX
    } else {
        ((quantity as int) / (per_count as int)) as u16
    }
}

/// The count that stands for `quantity`.
fn counts(quantity: i64, per_count: i64) -> (count: u16)
    requires
        per_count > 0,
    ensures
        count == spec_counts(quantity, per_count),
{
    if quantity <= 0 {
        return 0;
    }
    let whole: u64 = (quantity as u64) / (per_count as u64);
    if whole >= 0xFFFF {
        0xFFFF
    } else {
        whole as u16
    }
}

/// The write that switches the output on or off.
pub fn set_output(enable: bool) -> (write: RegisterWrite)
    ensures
        write == (RegisterWrite { register: REG_OUTPUT, value: if enable { 1u16 } else { 0u16 } }),
{
    RegisterWrite { register: REG_OUTPUT, value: if enable { 1 } else { 0 } }
}

/// The write that sets the output voltage to `millivolts`.
pub fn set_voltage(millivolts: i64) -> (write: RegisterWrite)
    ensures
        write == (RegisterWrite {
            register: REG_VOLTAGE_SET,
            value: spec_counts(millivolts, MILLIVOLTS_PER_COUNT),
        }),
{
    RegisterWrite { register: REG_VOLTAGE_SET, value: counts(millivolts, MILLIVOLTS_PER_COUNT) }
}

/// The write that sets the over-voltage protection to `millivolts`.
pub fn set_voltage_protection(millivolts: i64) -> (write: RegisterWrite)
    ensures
        write == (RegisterWrite {
            register: REG_VOLTAGE_PROTECTION,
            value: spec_counts(millivolts, MILLIVOLTS_PER_COUNT),
        }),
{
    RegisterWrite {
        register: REG_VOLTAGE_PROTECTION,
        value: counts(millivolts, MILLIVOLTS_PER_COUNT),
    }
}

/// The write that sets the output current to `current`.
pub fn set_current(current: i64) -> (write: RegisterWrite)
    ensures
        write == (RegisterWrite {
            register: REG_CURRENT_SET,
            value: spec_counts(current, CURRENT_PER_COUNT),
        }),
{
    RegisterWrite { register: REG_CURRENT_SET, value: counts(current, CURRENT_PER_COUNT) }
}

/// The write that sets the over-current protection to `current`.
pub fn set_current_protection(current: i64) -> (write: RegisterWrite)
    ensures
        write == (RegisterWrite {
            register: REG_CURRENT_PROTECTION,
            value: spec_counts(current, CURRENT_PER_COUNT),
        }),
{
    RegisterWrite { register: REG_CURRENT_PROTECTION, value: counts(current, CURRENT_PER_COUNT) }
}

/// The write that carries out `command`.
pub open spec fn spec_encode(command: Command) -> RegisterWrite {
    match command {
        Command::SetVoltage(millivolts) => RegisterWrite {
            register: REG_VOLTAGE_SET,
            value: spec_counts(millivolts, MILLIVOLTS_PER_COUNT),
        },
        Command::SetCurrent(current) => RegisterWrite {
            register: REG_CURRENT_SET,
            value: spec_counts(current, CURRENT_PER_COUNT),
        },
        Command::SetOutput(enable) => RegisterWrite {
            register: REG_OUTPUT,
            value: if enable {
                1u16
            } else {
                0u16
            },
        },
    }
}

/// The write that carries out `command`.
pub fn encode(command: Command) -> (write: RegisterWrite)
    ensures
        write == spec_encode(command),
{
    match command {
        Command::SetVoltage(millivolts) => set_voltage(millivolts),
        Command::SetCurrent(current) => set_current(current),
        Command::SetOutput(enable) => set_output(enable),
    }
}

/// The measured voltage, in millivolts, from what was read at
/// `REG_MEASURED`. None where nothing was read.
pub fn voltage(regs: &[u16]) -> (millivolts: Option<i64>)
    ensures
        millivolts == if regs@.len() >= 1 {
            Some((regs@[0] * MILLIVOLTS_PER_COUNT) as i64)
        } else {
            None
        },
{
    if regs.len() < 1 {
        return None;
    }
    Some((regs[0] as i64) * MILLIVOLTS_PER_COUNT)
}

/// The measured voltage, in millivolts, and the measured current, from the
/// two registers read at `REG_MEASURED`. None where fewer were read.
pub fn voltage_and_current(regs: &[u16]) -> (measured: Option<(i64, i64)>)
    ensures
        measured == if regs@.len() >= 2 {
            Some(
                ((regs@[0] * MILLIVOLTS_PER_COUNT) as i64, (regs@[1] * CURRENT_PER_COUNT) as i64),
            )
        } else {
            None
        },
{
    if regs.len() < 2 {
        return None;
    }
    Some(((regs[0] as i64) * MILLIVOLTS_PER_COUNT, (regs[1] as i64) * CURRENT_PER_COUNT))
}

/// The identity of the device, from the four registers read at
/// `REG_IDENTITY`: the model is the first register over ten, the serial
/// number the second and third register as high and low half, the firmware
/// version the fourth. None where fewer were read.
pub fn identity(regs: &[u16]) -> (id: Option<Identity>)
    ensures
        id == if regs@.len() >= IDENTITY_LEN {
            Some(
                Identity {
                    model: (regs@[0] / 10) as u16,
                    serial: (regs@[1] * 0x1_0000 + regs@[2]) as u32,
                    firmware: regs@[3],
                },
            )
        } else {
            None
        },
{
    if regs.len() < 4 {
        return None;
    }
    let high: u32 = regs[1] as u32;
    let low: u32 = regs[2] as u32;
    assert((high << 16) | low == high * 0x1_0000 + low) by (bit_vector)
        requires
            high <= 0xFFFF,
            low <= 0xFFFF,
    ;
    Some(Identity { model: regs[0] / 10, serial: (high << 16) | low, firmware: regs[3] })
}

/// A register never stands for more than was asked: its count times the
/// quantity per count is at most the quantity, and for a quantity that the
/// register can hold, less than one count is lost.
pub proof fn lemma_counts_round_down(quantity: i64, per_count: i64)
    requires
        per_count > 0,
        quantity >= 0,
    ensures
        spec_counts(quantity, per_count) * per_count <= quantity,
        quantity < u16::MAX * per_count ==> quantity < (spec_counts(quantity, per_count) + 1)
            * per_count,
{
    let q = quantity as int;
    let d = per_count as int;
    lemma_fundamental_div_mod(q, d);
    lemma_mod_bound(q, d);
    assert(d * (q / d) == (q / d) * d) by (nonlinear_arith);
    assert(((q / d) + 1) * d == (q / d) * d + d) by (nonlinear_arith);
    if q / d >= u16::MAX {
        assert(u16::MAX * d <= (q / d) * d) by (nonlinear_arith)
            requires
                q / d >= u16::MAX,
                d > 0,
        ;
    }
}

/// A larger quantity never gets a smaller count.
pub proof fn lemma_counts_monotone(lower: i64, upper: i64, per_count: i64)
    requires
        per_count > 0,
        lower <= upper,
    ensures
        spec_counts(lower, per_count) <= spec_counts(upper, per_count),
{
    lemma_div_is_ordered(lower as int, upper as int, per_count as int);
    if lower > 0 {
        lemma_div_is_ordered(0, lower as int, per_count as int);
    }
}

/// The supply is never asked for more than the rated voltage: whatever a
/// step of a loop at or below the rated voltage commands, the register value
/// written for it is at most the one that stands for the rated voltage.
pub proof fn lemma_written_voltage_is_bounded(
    s: ControlState,
    config: ReformConfig,
    event: LoopEvent,
    now: u64,
)
    requires
        s.voltage <= config.rated_voltage,
    ensures
        spec_step(s, config, event, now).1 matches Ok(Action::SetVoltage(v)) ==> spec_encode(
            Command::SetVoltage(v),
        ).register == REG_VOLTAGE_SET && spec_encode(Command::SetVoltage(v)).value
            <= spec_counts(config.rated_voltage, MILLIVOLTS_PER_COUNT),
{
    lemma_never_above_rated(s, config, event, now);
    if let Ok(Action::SetVoltage(v)) = spec_step(s, config, event, now).1 {
        lemma_counts_monotone(v, config.rated_voltage, MILLIVOLTS_PER_COUNT);
    }
}

} // verus!
