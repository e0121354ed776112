//! The bring-up sequencer: a resumable machine that walks a fixed program of
//! hardware operations, one bus access at a time.
//!
//! The machine never touches hardware. It holds the *pending* action; the
//! owner of the register blocks performs that action and feeds back what
//! happened as an [`Event`], upon which the machine decides the next action.
//! A read-modify-write is two accesses: the machine asks for the read, takes
//! the value, and computes the word to write back. A failed bus transaction
//! ends the run: from then on the pending action is [`Action::Abort`] and no
//! further hardware operation is ever handed out.

use crate::hal::{BusWrite, DriverOp, I2cFault, Register};
use vstd::prelude::*;

verus! {

/// One instruction of a bring-up program.
#[derive(Clone, Copy, Debug, PartialEq, Eq, Structural)]
pub enum Instr {
    /// Store `value` to `reg`.
    Write { reg: Register, value: u32 },
    /// Replace `reg` by `(reg & keep) | set`.
    Modify { reg: Register, keep: u32, set: u32 },
    /// Run a driver operation that cannot fail.
    Call(DriverOp),
    /// Write a byte to a device on an I2C bus; this can fail.
    Transfer(BusWrite),
}

/// Why a run ended without completing.
#[derive(Clone, Copy, Debug, PartialEq, Eq, Structural)]
pub enum Error {
    /// A bus transaction failed.
    I2c { device: u32, register: u8, fault: I2cFault },
    /// The machine was fed an event that the pending action cannot produce.
    Fatal,
}

/// What the hardware layer has to do next.
#[derive(Clone, Copy, Debug, PartialEq, Eq, Structural)]
pub enum Action {
    /// Read the register and report its value.
    Read(Register),
    /// Store the word to the register.
    Write(Register, u32),
    /// Run the driver operation.
    Driver(DriverOp),
    /// Perform the bus write and report whether it failed.
    Transfer(BusWrite),
    /// Every instruction has completed; there is nothing left to do.
    Finish,
    /// The run has failed. The caller must enter the panic path.
    Abort(Error),
}

/// What happened when the pending action was performed.
#[derive(Clone, Copy, Debug, PartialEq, Eq, Structural)]
pub enum Event {
    /// The operation completed.
    Done,
    /// The register read returned this word.
    Value(u32),
    /// The bus transaction failed.
    Fault(I2cFault),
}

/// Position of a run: the instruction in flight and the action that is out
/// for it.
pub struct Cursor {
    pub pc: int,
    pub pending: Action,
}

/// The word that a read-modify-write stores, given the word it read.
pub open spec fn merged(old: u32, keep: u32, set: u32) -> u32 {
    (old & keep) | set
}

/// Whether the action asks for a hardware operation.
pub open spec fn is_hardware(action: Action) -> bool {
    !(action is Finish) && !(action is Abort)
}

/// The cursor at the start of instruction `pc`: its first action is pending.
/// Past the last instruction the run is finished.
pub open spec fn issue(program: Seq<Instr>, pc: int) -> Cursor {
    if 0 <= pc < program.len() {
        Cursor {
            pc,
            pending: match program[pc] {
                Instr::Write { reg, value } => Action::Write(reg, value),
                Instr::Modify { reg, .. } => Action::Read(reg),
                Instr::Call(op) => Action::Driver(op),
                Instr::Transfer(write) => Action::Transfer(write),
            },
        }
    } else {
        Cursor { pc: program.len() as int, pending: Action::Finish }
    }
}

/// The cursor of a run that has failed with `error` at instruction `pc`.
pub open spec fn failed(pc: int, error: Error) -> Cursor {
    Cursor { pc, pending: Action::Abort(error) }
}

/// Whether the cursor can occur in a run of `program`: the pending action
/// belongs to the instruction in flight.
pub open spec fn consistent(program: Seq<Instr>, cursor: Cursor) -> bool {
    match cursor.pending {
        Action::Finish => cursor.pc == program.len(),
        Action::Abort(_) => 0 <= cursor.pc < program.len(),
        Action::Read(reg) => {
            &&& 0 <= cursor.pc < program.len()
            &&& program[cursor.pc] matches Instr::Modify { reg: r, .. }
            &&& r == reg
        },
        Action::Write(reg, value) => {
            &&& 0 <= cursor.pc < program.len()
            &&& match program[cursor.pc] {
                Instr::Write { reg: r, value: v } => r == reg && v == value,
                Instr::Modify { reg: r, keep, set } => r == reg && exists|old: u32|
                    value == #[trigger] merged(old, keep, set),
                _ => false,
            }
        },
        Action::Driver(op) => {
            &&& 0 <= cursor.pc < program.len()
            &&& program[cursor.pc] == Instr::Call(op)
        },
        Action::Transfer(write) => {
            &&& 0 <= cursor.pc < program.len()
            &&& program[cursor.pc] == Instr::Transfer(write)
        },
    }
}

/// One transition: the cursor after `event` has been reported for the
/// pending action.
///
/// * A finished or failed run stays as it is, whatever is reported.
/// * `Done` completes a write, a driver operation or a bus write, and the
///   next instruction is issued.
/// * `Value(v)` answers the read of a read-modify-write; the write of
///   `(v & keep) | set` to the same register becomes pending.
/// * `Fault(f)` on a bus write fails the run with the device, the
///   sub-register and the fault.
/// * Any other pairing fails the run with [`Error::Fatal`].
pub open spec fn step(program: Seq<Instr>, cursor: Cursor, event: Event) -> Cursor {
    match cursor.pending {
        Action::Finish => cursor,
        Action::Abort(_) => cursor,
        Action::Read(_) => match event {
            Event::Value(v) => if 0 <= cursor.pc < program.len() {
                match program[cursor.pc] {
                    Instr::Modify { reg: r, keep, set } => Cursor {
                        pc: cursor.pc,
                        pending: Action::Write(r, merged(v, keep, set)),
                    },
                    _ => failed(cursor.pc, Error::Fatal),
                }
            } else {
                failed(cursor.pc, Error::Fatal)
            },
            _ => failed(cursor.pc, Error::Fatal),
        },
        Action::Write(_, _) => match event {
            Event::Done => issue(program, cursor.pc + 1),
            _ => failed(cursor.pc, Error::Fatal),
        },
        Action::Driver(_) => match event {
            Event::Done => issue(program, cursor.pc + 1),
            _ => failed(cursor.pc, Error::Fatal),
        },
        Action::Transfer(write) => match event {
            Event::Done => issue(program, cursor.pc + 1),
            Event::Fault(fault) => failed(
                cursor.pc,
                Error::I2c { device: write.device, register: write.register, fault },
            ),
            Event::Value(_) => failed(cursor.pc, Error::Fatal),
        },
    }
}

/// A run of a bring-up program.
pub struct Sequencer {
    program: Vec<Instr>,
    at: Position,
}

/// Where a [`Sequencer`] stands.
struct Position {
    pc: usize,
    pending: Action,
}

impl Position {
    spec fn cursor(self) -> Cursor {
        Cursor { pc: self.pc as int, pending: self.pending }
    }
}

/// What can be observed of a [`Sequencer`]: its program and its cursor.
pub struct Run {
    pub program: Seq<Instr>,
    pub cursor: Cursor,
}

impl View for Sequencer {
    type V = Run;

    closed spec fn view(&self) -> Run {
        Run { program: self.program@, cursor: self.at.cursor() }
    }
}

impl Sequencer {
    #[verifier::type_invariant]
    spec fn inv(self) -> bool {
        consistent(self.program@, self.at.cursor())
    }

    /// The position at the start of instruction `pc`.
    fn issue_at(program: &Vec<Instr>, pc: usize) -> (at: Position)
        ensures
            at.cursor() == issue(program@, pc as int),
            consistent(program@, issue(program@, pc as int)),
        no_unwind
    {
        if pc < program.len() {
            let pending = match program[pc] {
                Instr::Write { reg, value } => Action::Write(reg, value),
                Instr::Modify { reg, .. } => Action::Read(reg),
                Instr::Call(op) => Action::Driver(op),
                Instr::Transfer(write) => Action::Transfer(write),
            };
            Position { pc, pending }
        } else {
            Position { pc: program.len(), pending: Action::Finish }
        }
    }

    /// Starts a run of `program`: the first action of its first instruction
    /// is pending, or `Finish` if the program is empty.
    pub fn new(program: Vec<Instr>) -> (seq: Sequencer)
        ensures
            seq@.program == program@,
            seq@.cursor == issue(program@, 0),
            consistent(seq@.program, seq@.cursor),
    {
        let at = Self::issue_at(&program, 0);
        Sequencer { program, at }
    }

    /// The action that has to be performed now. It belongs to the
    /// instruction in flight.
    pub fn action(&self) -> (action: Action)
        ensures
            action == self@.cursor.pending,
            consistent(self@.program, self@.cursor),
        no_unwind
    {
        proof {
            use_type_invariant(self);
        }
        self.at.pending
    }

    /// Index of the instruction in flight; the program's length once the run
    /// has finished.
    pub fn position(&self) -> (pc: usize)
        ensures
            pc == self@.cursor.pc,
    {
        self.at.pc
    }

    /// How the run ended: `None` while an operation is pending, `Ok` once
    /// every instruction has completed, the error once the run has failed.
    pub fn outcome(&self) -> (outcome: Option<Result<(), Error>>)
        ensures
            outcome == match self@.cursor.pending {
                Action::Finish => Some(Ok::<(), Error>(())),
                Action::Abort(error) => Some(Err::<(), Error>(error)),
                _ => None::<Result<(), Error>>,
            },
    {
        match self.at.pending {
            Action::Finish => Some(Ok(())),
            Action::Abort(error) => Some(Err(error)),
            _ => None,
        }
    }

    /// Takes the report for the pending action and moves to the next one.
    pub fn advance(&mut self, event: Event)
        ensures
            final(self)@.program == old(self)@.program,
            final(self)@.cursor == step(old(self)@.program, old(self)@.cursor, event),
        no_unwind
    {
        proof {
            use_type_invariant(&*self);
        }
        let pc: usize = self.at.pc;
        assert(is_hardware(self.at.pending) ==> pc < self.program.len());
        match self.at.pending {
            Action::Finish => {},
            Action::Abort(_) => {},
            Action::Read(_) => match event {
                Event::Value(v) => match self.program[pc] {
                    Instr::Modify { reg, keep, set } => {
                        self.at = Position { pc, pending: Action::Write(reg, (v & keep) | set) };
                    },
                    _ => {
                        self.at = Position { pc, pending: Action::Abort(Error::Fatal) };
                    },
                },
                _ => {
                    self.at = Position { pc, pending: Action::Abort(Error::Fatal) };
                },
            },
            Action::Write(_, _) | Action::Driver(_) => match event {
                Event::Done => {
                    self.at = Self::issue_at(&self.program, pc + 1);
                },
                _ => {
                    self.at = Position { pc, pending: Action::Abort(Error::Fatal) };
                },
            },
            Action::Transfer(write) => match event {
                Event::Done => {
                    self.at = Self::issue_at(&self.program, pc + 1);
                },
                Event::Fault(fault) => {
                    let error =
                        Error::I2c { device: write.device, register: write.register, fault };
                    self.at = Position { pc, pending: Action::Abort(error) };
                },
                Event::Value(_) => {
                    self.at = Position { pc, pending: Action::Abort(Error::Fatal) };
                },
            },
        }
    }
}

/// The first action of every instruction is consistent with it, and so is
/// the end of the program.
pub proof fn lemma_issue_is_consistent(program: Seq<Instr>, pc: int)
    ensures
        consistent(program, issue(program, pc)),
{
}

/// Program order, step by step. A transition never leaves the program and
/// never goes back; it stays at the instruction in flight or moves on to
/// the very next one, and what is then pending belongs to that instruction.
/// It moves on only when `Done` is reported for a hardware action.
pub proof fn lemma_step_keeps_order(program: Seq<Instr>, cursor: Cursor, event: Event)
    requires
        consistent(program, cursor),
    ensures
        consistent(program, step(program, cursor, event)),
        cursor.pc <= step(program, cursor, event).pc <= cursor.pc + 1,
        step(program, cursor, event).pc == cursor.pc + 1 ==> event == Event::Done && is_hardware(
            cursor.pending,
        ) && step(program, cursor, event) == issue(program, cursor.pc + 1),
{
    let next = step(program, cursor, event);
    match cursor.pending {
        Action::Read(_) => {
            if let Event::Value(v) = event {
                if let Instr::Modify { reg: r, keep, set } = program[cursor.pc] {
                    assert(next.pending == Action::Write(r, merged(v, keep, set)));
                }
            }
        },
        _ => {},
    }
}

} // verus!
