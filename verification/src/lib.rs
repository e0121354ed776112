//! Verified core of a first-stage boot payload for the NVIDIA Tegra X1.
//!
//! The payload brings the SoC from its state after reset to the point where
//! a second-stage bootloader can run, and it makes sure that any failure on
//! the way ends in a scrubbed, halted machine. This crate holds the logic of
//! that: which hardware operation comes when and with which value, what
//! happens when one fails, and the memory primitives underneath. It never
//! touches hardware itself; it tells its caller what to do next.
//!
//! * [`hal`] names the registers, pins, buses and driver operations.
//! * [`init`] holds the bring-up program, stage by stage.
//! * [`sequencer`] walks a program one bus access at a time and stops at the
//!   first failure; [`trace`] states what holds of whole runs, and
//!   [`registers`] what a run leaves behind in the registers.
//! * [`panic`] is the handler that scrubs and halts the machine.
//! * [`boot`] ties the two together on the way from the entry stub to `main`.
//! * [`memory`] and [`mem`] are the memory primitives, on words and on bytes,
//!   and [`rt`] is what the runtime needs around `main`.

use crate::hal::{
    DriverOp, Gpio, GpioMode, GpioPort, Level, PinGroup, PinTristate, SecurityEngine,
};
use crate::sequencer::Instr;
use vstd::prelude::*;

pub mod boot;
pub mod hal;
pub mod init;
pub mod mem;
pub mod memory;
pub mod panic;
pub mod registers;
pub mod rt;
pub mod sequencer;
pub mod trace;

verus! {

/// The instance of the Security Engine that the bootloader uses.
pub const SECURITY_ENGINE: SecurityEngine = SecurityEngine::Se1;

/// The start address of the second-stage bootloader in memory.
pub const BOOTLOADER_START: u32 = 0x4001_6FE0;

/// The size of the second-stage bootloader blob in bytes, a whole number of
/// words.
pub const BOOTLOADER_SIZE: u32 = 0x28810;

/// Microseconds for which the backlight rails are given to settle.
pub const BACKLIGHT_SETTLE_US: u32 = 5;

/// What raising the backlight power rails takes: both backlight pins are
/// passed through and driven high, and after the rails have settled the PWM
/// pin is pulled low.
pub open spec fn backlight_program() -> Seq<Instr> {
    seq![
        Instr::Call(DriverOp::PinmuxTristate(PinGroup::LcdBlPwmPv0, PinTristate::Passthrough)),
        Instr::Call(DriverOp::PinmuxTristate(PinGroup::LcdBlEnPv1, PinTristate::Passthrough)),
        Instr::Call(
            DriverOp::GpioConfig(Gpio { port: GpioPort::V, pin: 0 }, GpioMode::OutputHigh),
        ),
        Instr::Call(
            DriverOp::GpioConfig(Gpio { port: GpioPort::V, pin: 1 }, GpioMode::OutputHigh),
        ),
        Instr::Call(DriverOp::Sleep(BACKLIGHT_SETTLE_US)),
        Instr::Call(DriverOp::GpioWrite(Gpio { port: GpioPort::V, pin: 0 }, Level::Low)),
    ]
}

/// The instructions that bring up the backlight.
pub fn bring_up_backlight() -> (program: Vec<Instr>)
    ensures
        program@ == backlight_program(),
{
    let program = vec![
        Instr::Call(DriverOp::PinmuxTristate(PinGroup::LcdBlPwmPv0, PinTristate::Passthrough)),
        Instr::Call(DriverOp::PinmuxTristate(PinGroup::LcdBlEnPv1, PinTristate::Passthrough)),
        Instr::Call(
            DriverOp::GpioConfig(Gpio { port: GpioPort::V, pin: 0 }, GpioMode::OutputHigh),
        ),
        Instr::Call(
            DriverOp::GpioConfig(Gpio { port: GpioPort::V, pin: 1 }, GpioMode::OutputHigh),
        ),
        Instr::Call(DriverOp::Sleep(BACKLIGHT_SETTLE_US)),
        Instr::Call(DriverOp::GpioWrite(Gpio { port: GpioPort::V, pin: 0 }, Level::Low)),
    ];
    assert(program@ =~= backlight_program());
    program
}

} // verus!
