//! Whole runs of the bring-up sequencer: what is handed out, in which order,
//! over any sequence of reports, and the laws that hold of it.

use crate::hal::I2cFault;
use crate::sequencer::{
    is_hardware, issue, merged, step, Action, Cursor, Error, Event, Instr, Sequencer,
};
use vstd::prelude::*;

verus! {

/// The cursor after the reports `events` have been fed in order.
pub open spec fn run(program: Seq<Instr>, cursor: Cursor, events: Seq<Event>) -> Cursor
    decreases events.len(),
{
    if events.len() == 0 {
        cursor
    } else {
        run(program, step(program, cursor, events[0]), events.drop_first())
    }
}

/// The actions that were pending when each of `events` was fed: what the
/// hardware layer was asked to do, in order.
pub open spec fn trace(program: Seq<Instr>, cursor: Cursor, events: Seq<Event>) -> Seq<Action>
    decreases events.len(),
{
    if events.len() == 0 {
        Seq::empty()
    } else {
        seq![cursor.pending] + trace(
            program,
            step(program, cursor, events[0]),
            events.drop_first(),
        )
    }
}

/// The bus accesses that one instruction amounts to when nothing fails,
/// where `read` is the word that its read returns, if it reads.
pub open spec fn accesses(instr: Instr, read: u32) -> Seq<Action> {
    match instr {
        Instr::Write { reg, value } => seq![Action::Write(reg, value)],
        Instr::Modify { reg, keep, set } => seq![
            Action::Read(reg),
            Action::Write(reg, merged(read, keep, set)),
        ],
        Instr::Call(op) => seq![Action::Driver(op)],
        Instr::Transfer(write) => seq![Action::Transfer(write)],
    }
}

/// The reports that the accesses of one instruction produce when nothing
/// fails.
pub open spec fn reports(instr: Instr, read: u32) -> Seq<Event> {
    match instr {
        Instr::Modify { .. } => seq![Event::Value(read), Event::Done],
        _ => seq![Event::Done],
    }
}

/// The accesses of the instructions `from..to` in program order, where
/// `reads[i]` is the word that instruction `i` reads.
pub open spec fn accesses_of(program: Seq<Instr>, reads: Seq<u32>, from: int, to: int) -> Seq<
    Action,
>
    decreases to - from,
{
    if from >= to {
        Seq::empty()
    } else {
        accesses(program[from], reads[from]) + accesses_of(program, reads, from + 1, to)
    }
}

/// The reports of the instructions `from..to` in program order when nothing
/// fails.
pub open spec fn reports_of(program: Seq<Instr>, reads: Seq<u32>, from: int, to: int) -> Seq<
    Event,
>
    decreases to - from,
{
    if from >= to {
        Seq::empty()
    } else {
        reports(program[from], reads[from]) + reports_of(program, reads, from + 1, to)
    }
}

/// Feeding `first + rest` is feeding `first`, then `rest`.
pub proof fn lemma_run_concat(
    program: Seq<Instr>,
    cursor: Cursor,
    first: Seq<Event>,
    rest: Seq<Event>,
)
    ensures
        run(program, cursor, first + rest) == run(program, run(program, cursor, first), rest),
        trace(program, cursor, first + rest) == trace(program, cursor, first) + trace(
            program,
            run(program, cursor, first),
            rest,
        ),
    decreases first.len(),
{
    if first.len() == 0 {
        assert(first + rest =~= rest);
    } else {
        let events = first + rest;
        assert(events[0] == first[0]);
        assert(events.drop_first() =~= first.drop_first() + rest);
        lemma_run_concat(program, step(program, cursor, first[0]), first.drop_first(), rest);
    }
}

/// Feeding one more report is one more transition.
pub proof fn lemma_run_extends(
    program: Seq<Instr>,
    cursor: Cursor,
    events: Seq<Event>,
    event: Event,
)
    ensures
        run(program, cursor, events.push(event)) == step(
            program,
            run(program, cursor, events),
            event,
        ),
        trace(program, cursor, events.push(event)) == trace(program, cursor, events).push(
            run(program, cursor, events).pending,
        ),
{
    let last = seq![event];
    lemma_run_concat(program, cursor, events, last);
    assert(events.push(event) =~= events + last);
    assert(last.drop_first() =~= Seq::<Event>::empty());
    reveal_with_fuel(run, 2);
    reveal_with_fuel(trace, 2);
    let reached = run(program, cursor, events);
    assert(trace(program, reached, last) =~= seq![reached.pending]);
    assert(trace(program, cursor, events) + seq![reached.pending] =~= trace(
        program,
        cursor,
        events,
    ).push(reached.pending));
}

impl Sequencer {
    /// Feeds a recorded sequence of reports, one after the other, and returns
    /// the actions that were pending when each of them arrived.
    pub fn replay(&mut self, events: &[Event]) -> (actions: Vec<Action>)
        ensures
            final(self)@.program == old(self)@.program,
            final(self)@.cursor == run(old(self)@.program, old(self)@.cursor, events@),
            actions@ == trace(old(self)@.program, old(self)@.cursor, events@),
    {
        let ghost program = self@.program;
        let ghost start = self@.cursor;
        let mut actions: Vec<Action> = Vec::new();
        let mut i: usize = 0;
        while i < events.len()
            invariant
                i <= events.len(),
                self@.program == program,
                self@.cursor == run(program, start, events@.take(i as int)),
                actions@ == trace(program, start, events@.take(i as int)),
            decreases events.len() - i,
        {
            actions.push(self.action());
            self.advance(events[i]);
            proof {
                lemma_run_extends(program, start, events@.take(i as int), events@[i as int]);
                assert(events@.take(i + 1) =~= events@.take(i as int).push(events@[i as int]));
            }
            i = i + 1;
        }
        assert(events@.take(events.len() as int) =~= events@);
        actions
    }
}

/// A run that has finished or failed stays where it is: whatever is reported
/// afterwards, the cursor does not move and no hardware operation is handed
/// out again.
pub proof fn lemma_stopped_run_is_silent(program: Seq<Instr>, cursor: Cursor, events: Seq<Event>)
    requires
        !is_hardware(cursor.pending),
    ensures
        run(program, cursor, events) == cursor,
        trace(program, cursor, events) == Seq::new(events.len(), |i: int| cursor.pending),
    decreases events.len(),
{
    if events.len() > 0 {
        lemma_stopped_run_is_silent(program, cursor, events.drop_first());
    }
}

/// One instruction of a fault-free run: from the start of instruction `pc`,
/// its reports lead to the start of the next instruction, and exactly its
/// accesses are handed out.
pub proof fn lemma_instruction_completes(program: Seq<Instr>, pc: int, read: u32)
    requires
        0 <= pc < program.len(),
    ensures
        run(program, issue(program, pc), reports(program[pc], read)) == issue(program, pc + 1),
        trace(program, issue(program, pc), reports(program[pc], read)) == accesses(
            program[pc],
            read,
        ),
{
    let start = issue(program, pc);
    let events = reports(program[pc], read);
    reveal_with_fuel(run, 3);
    reveal_with_fuel(trace, 3);
    match program[pc] {
        Instr::Modify { .. } => {
            assert(events.drop_first() =~= seq![Event::Done]);
            assert(events.drop_first().drop_first() =~= Seq::<Event>::empty());
            assert(trace(program, start, events) =~= accesses(program[pc], read));
        },
        _ => {
            assert(events.drop_first() =~= Seq::<Event>::empty());
            assert(trace(program, start, events) =~= accesses(program[pc], read));
        },
    }
}

/// Program order. When nothing fails, the run from the start of instruction
/// `from` hands out exactly the accesses of the instructions `from..to`, one
/// instruction after the other, none skipped and none repeated, and then
/// stands at the start of instruction `to`.
pub proof fn lemma_fault_free_run(program: Seq<Instr>, reads: Seq<u32>, from: int, to: int)
    requires
        0 <= from <= to <= program.len(),
    ensures
        run(program, issue(program, from), reports_of(program, reads, from, to)) == issue(
            program,
            to,
        ),
        trace(program, issue(program, from), reports_of(program, reads, from, to))
            == accesses_of(program, reads, from, to),
    decreases to - from,
{
    if from < to {
        let head = reports(program[from], reads[from]);
        let tail = reports_of(program, reads, from + 1, to);
        lemma_instruction_completes(program, from, reads[from]);
        lemma_fault_free_run(program, reads, from + 1, to);
        lemma_run_concat(program, issue(program, from), head, tail);
    }
}

/// A complete fault-free run ends with `Finish` pending.
pub proof fn lemma_fault_free_run_finishes(program: Seq<Instr>, reads: Seq<u32>)
    ensures
        run(
            program,
            issue(program, 0),
            reports_of(program, reads, 0, program.len() as int),
        ).pending == Action::Finish,
{
    lemma_fault_free_run(program, reads, 0, program.len() as int);
}

/// First failure is final. If the instructions before `at` complete and the
/// bus write at `at` reports a fault, the run fails with that device,
/// sub-register and fault; the accesses handed out are those of the
/// instructions before `at` and the failed write itself, and whatever is
/// reported afterwards, nothing but the abort is handed out.
pub proof fn lemma_bus_fault_aborts(
    program: Seq<Instr>,
    reads: Seq<u32>,
    at: int,
    fault: I2cFault,
    later: Seq<Event>,
)
    requires
        0 <= at < program.len(),
        program[at] is Transfer,
    ensures
        ({
            let write = program[at]->Transfer_0;
            let error = Error::I2c { device: write.device, register: write.register, fault };
            let events = reports_of(program, reads, 0, at) + seq![Event::Fault(fault)] + later;
            &&& run(program, issue(program, 0), events) == Cursor {
                pc: at,
                pending: Action::Abort(error),
            }
            &&& trace(program, issue(program, 0), events) == accesses_of(program, reads, 0, at)
                + seq![Action::Transfer(write)] + Seq::new(
                later.len(),
                |i: int| Action::Abort(error),
            )
        }),
{
    let write = program[at]->Transfer_0;
    let error = Error::I2c { device: write.device, register: write.register, fault };
    let before = reports_of(program, reads, 0, at);
    let failure = seq![Event::Fault(fault)];
    let start = issue(program, 0);
    let stopped = Cursor { pc: at, pending: Action::Abort(error) };
    lemma_fault_free_run(program, reads, 0, at);
    lemma_run_concat(program, start, before + failure, later);
    lemma_run_concat(program, start, before, failure);
    reveal_with_fuel(run, 2);
    reveal_with_fuel(trace, 2);
    assert(failure.drop_first() =~= Seq::<Event>::empty());
    assert(run(program, issue(program, at), failure) == stopped);
    assert(trace(program, issue(program, at), failure) =~= seq![Action::Transfer(write)]);
    lemma_stopped_run_is_silent(program, stopped, later);
}

} // verus!
