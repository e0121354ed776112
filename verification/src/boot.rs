//! The way from the entry stub to the bootloader's `main` and back, and the
//! one way out of it.
//!
//! The image poisons the exception vectors, clears `.bss`, runs its
//! initializers, brings up the hardware, runs `main` and runs its
//! finalizers. If the bring-up fails, if anything reports what it cannot
//! report, if the bootloader's own code panics or if the CPU takes an
//! exception, the panic handler is entered, and from then on nothing but
//! its shutdown happens.

use crate::init::{bring_up_program, init_hardware, Config};
use crate::memory::MemoryRange;
use crate::panic::{
    action_of, entered, entry_action, first_step, following, nth_following, PanicAction,
    PanicHandler, PanicView, State, Step, Trigger,
};
use crate::sequencer::{
    consistent, is_hardware, issue, lemma_step_keeps_order, step, Action, Event, Instr, Run,
    Sequencer,
};
use crate::trace::{accesses, accesses_of, reports, reports_of};
use vstd::prelude::*;

verus! {

/// Where the image stands.
#[derive(Clone, Copy, Debug, PartialEq, Eq, Structural)]
pub enum Phase {
    /// The exception vectors are being poisoned.
    Vectors,
    /// `.bss` is being cleared.
    Bss,
    /// The functions of `.init_array` are being called.
    InitArray,
    /// The hardware is being brought up.
    BringUp,
    /// The bootloader's `main` is running.
    Main,
    /// The functions of `.fini_array` are being called.
    FiniArray,
    /// Everything has run; control goes back to the entry stub.
    Returned,
    /// The panic handler has been entered; the action is the one that is
    /// out.
    Down(PanicAction),
}

/// What has to be done next.
#[derive(Clone, Copy, Debug, PartialEq, Eq, Structural)]
pub enum BootAction {
    /// Poison the exception vectors with the panic handler.
    SetupExceptionVectors,
    /// Clear the `.bss` segment.
    ClearBss,
    /// Call the functions of the `.init_array` segment.
    CallInitArray,
    /// Perform this access of the bring-up and report what happened.
    Hardware(Action),
    /// Run the bootloader's `main`.
    Main,
    /// Call the functions of the `.fini_array` segment.
    CallFiniArray,
    /// Return to the entry stub.
    Return,
    /// Perform this action of the panic handler.
    Shutdown(PanicAction),
}

/// What can be observed of a [`Boot`].
pub struct BootView {
    pub phase: Phase,
    pub run: Run,
    pub handler: PanicView,
}

/// The boot with the handler entered by `trigger`: the handler's action is
/// out, and the phase is `Down`.
pub open spec fn brought_down(boot: BootView, trigger: Trigger) -> BootView {
    BootView {
        phase: Phase::Down(entry_action(boot.handler, trigger)),
        handler: entered(boot.handler, trigger),
        ..boot
    }
}

/// The boot at the point where the bring-up has the word: it goes on with
/// the bring-up while a hardware access is pending, on to `main` when the
/// bring-up has finished, and down when it has failed.
pub open spec fn settled(boot: BootView) -> BootView {
    match boot.run.cursor.pending {
        Action::Finish => BootView { phase: Phase::Main, ..boot },
        Action::Abort(_) => brought_down(boot, Trigger::Panic),
        _ => BootView { phase: Phase::BringUp, ..boot },
    }
}

/// What is to be done in the state `boot`.
pub open spec fn boot_action(boot: BootView) -> BootAction {
    match boot.phase {
        Phase::Vectors => BootAction::SetupExceptionVectors,
        Phase::Bss => BootAction::ClearBss,
        Phase::InitArray => BootAction::CallInitArray,
        Phase::BringUp => BootAction::Hardware(boot.run.cursor.pending),
        Phase::Main => BootAction::Main,
        Phase::FiniArray => BootAction::CallFiniArray,
        Phase::Returned => BootAction::Return,
        Phase::Down(action) => BootAction::Shutdown(action),
    }
}

/// One transition: the boot after `event` has been reported for what was to
/// be done.
///
/// * Once down, the handler goes on with its shutdown, whatever is reported.
/// * Once returned, nothing changes.
/// * During the bring-up the report goes to the sequencer, and the boot
///   settles on what the sequencer then says.
/// * In every other phase `Done` leads to the next phase, and any other
///   report brings the boot down.
pub open spec fn boot_step(boot: BootView, event: Event) -> BootView {
    match boot.phase {
        Phase::Down(_) => brought_down(boot, Trigger::Exception),
        Phase::Returned => boot,
        Phase::BringUp => settled(
            BootView {
                run: Run {
                    cursor: step(boot.run.program, boot.run.cursor, event),
                    ..boot.run
                },
                ..boot
            },
        ),
        _ => if event == Event::Done {
            match boot.phase {
                Phase::Vectors => BootView { phase: Phase::Bss, ..boot },
                Phase::Bss => BootView { phase: Phase::InitArray, ..boot },
                Phase::InitArray => settled(boot),
                Phase::Main => BootView { phase: Phase::FiniArray, ..boot },
                _ => BootView { phase: Phase::Returned, ..boot },
            }
        } else {
            brought_down(boot, Trigger::Panic)
        },
    }
}

/// The boot after `trigger` has occurred outside of any report: a panic in
/// the bootloader's own code, or a CPU exception. A boot that is down
/// already stays as it is.
pub open spec fn boot_interrupt(boot: BootView, trigger: Trigger) -> BootView {
    if boot.phase is Down {
        boot
    } else {
        brought_down(boot, trigger)
    }
}

/// Whether the state can occur: the handler is armed exactly as long as the
/// boot is not down, the bring-up has the word only while one of its
/// hardware accesses is pending, `main` and what follows it come only after
/// the bring-up has finished, and the sequencer's cursor is consistent with
/// its program.
pub open spec fn boot_consistent(boot: BootView) -> bool {
    &&& boot.phase is Down <==> boot.handler.state is Handling
    &&& boot.phase is BringUp ==> is_hardware(boot.run.cursor.pending)
    &&& boot.phase is Main || boot.phase is FiniArray || boot.phase is Returned
        ==> boot.run.cursor.pending is Finish
    &&& consistent(boot.run.program, boot.run.cursor)
}

/// The image on its way from the entry stub to `main` and back.
pub struct Boot {
    phase: Phase,
    run: Sequencer,
    handler: PanicHandler,
}

impl View for Boot {
    type V = BootView;

    closed spec fn view(&self) -> BootView {
        BootView { phase: self.phase, run: self.run@, handler: self.handler@ }
    }
}

impl Boot {
    /// A boot at its very beginning, for a bring-up with the switches
    /// `config` and a stack that occupies `stack`: the exception vectors
    /// come first, and the panic handler is armed.
    pub fn new(config: Config, stack: MemoryRange) -> (boot: Boot)
        ensures
            boot@ == (BootView {
                phase: Phase::Vectors,
                run: Run {
                    program: bring_up_program(config),
                    cursor: issue(bring_up_program(config), 0),
                },
                handler: PanicView { stack, debug_uart: config.debug_uart, state: State::Armed },
            }),
            boot_consistent(boot@),
    {
        Boot {
            phase: Phase::Vectors,
            run: init_hardware(config),
            handler: PanicHandler::new(stack, config.debug_uart),
        }
    }

    /// What has to be done now.
    pub fn action(&self) -> (action: BootAction)
        ensures
            action == boot_action(self@),
        no_unwind
    {
        match self.phase {
            Phase::Vectors => BootAction::SetupExceptionVectors,
            Phase::Bss => BootAction::ClearBss,
            Phase::InitArray => BootAction::CallInitArray,
            Phase::BringUp => BootAction::Hardware(self.run.action()),
            Phase::Main => BootAction::Main,
            Phase::FiniArray => BootAction::CallFiniArray,
            Phase::Returned => BootAction::Return,
            Phase::Down(action) => BootAction::Shutdown(action),
        }
    }

    /// The phase the boot is in.
    pub fn phase(&self) -> (phase: Phase)
        ensures
            phase == self@.phase,
    {
        self.phase
    }

    /// Enters the panic handler by `trigger`.
    fn bring_down(&mut self, trigger: Trigger)
        ensures
            final(self)@ == brought_down(old(self)@, trigger),
        no_unwind
    {
        let action = self.handler.enter(trigger);
        self.phase = Phase::Down(action);
    }

    /// Lets the bring-up have the word.
    fn settle(&mut self)
        ensures
            final(self)@ == settled(old(self)@),
        no_unwind
    {
        match self.run.action() {
            Action::Finish => {
                self.phase = Phase::Main;
            },
            Action::Abort(_) => {
                self.bring_down(Trigger::Panic);
            },
            _ => {
                self.phase = Phase::BringUp;
            },
        }
    }

    /// Takes the report for what was to be done and moves on.
    pub fn advance(&mut self, event: Event)
        ensures
            final(self)@ == boot_step(old(self)@, event),
            boot_consistent(old(self)@) ==> boot_consistent(final(self)@),
        no_unwind
    {
        match self.phase {
            Phase::Down(_) => {
                let action = self.handler.enter(Trigger::Exception);
                self.phase = Phase::Down(action);
            },
            Phase::Returned => {},
            Phase::BringUp => {
                self.run.advance(event);
                self.settle();
            },
            phase => {
                if event == Event::Done {
                    match phase {
                        Phase::Vectors => {
                            self.phase = Phase::Bss;
                        },
                        Phase::Bss => {
                            self.phase = Phase::InitArray;
                        },
                        Phase::InitArray => {
                            self.settle();
                        },
                        Phase::Main => {
                            self.phase = Phase::FiniArray;
                        },
                        _ => {
                            self.phase = Phase::Returned;
                        },
                    }
                } else {
                    self.bring_down(Trigger::Panic);
                }
            },
        }
    }

    /// Takes note of a panic of the bootloader's own code or of a CPU
    /// exception: unless the boot is down already, the handler is entered.
    pub fn interrupt(&mut self, trigger: Trigger)
        ensures
            final(self)@ == boot_interrupt(old(self)@, trigger),
            boot_consistent(old(self)@) ==> boot_consistent(final(self)@),
        no_unwind
    {
        match self.phase {
            Phase::Down(_) => {},
            _ => {
                self.bring_down(trigger);
            },
        }
    }
}

/// The boot after the reports `events` have been fed in order.
pub open spec fn boot_run(boot: BootView, events: Seq<Event>) -> BootView
    decreases events.len(),
{
    if events.len() == 0 {
        boot
    } else {
        boot_run(boot_step(boot, events[0]), events.drop_first())
    }
}

/// What was to be done when each of `events` was fed, in order.
pub open spec fn boot_trace(boot: BootView, events: Seq<Event>) -> Seq<BootAction>
    decreases events.len(),
{
    if events.len() == 0 {
        Seq::empty()
    } else {
        seq![boot_action(boot)] + boot_trace(boot_step(boot, events[0]), events.drop_first())
    }
}

/// The `i`-th action of a shutdown whose first action `first` is out
/// already and whose next step is `next`.
pub open spec fn shutdown_action(
    stack: MemoryRange,
    first: PanicAction,
    next: Step,
    i: int,
) -> PanicAction {
    if i <= 0 {
        first
    } else {
        action_of(stack, nth_following(next, (i - 1) as nat))
    }
}

/// Every transition keeps the state consistent, and so does every trigger.
pub proof fn lemma_boot_stays_consistent(boot: BootView, event: Event, trigger: Trigger)
    requires
        boot_consistent(boot),
    ensures
        boot_consistent(boot_step(boot, event)),
        boot_consistent(boot_interrupt(boot, trigger)),
{
    lemma_step_keeps_order(boot.run.program, boot.run.cursor, event);
}

/// `main` runs only after a complete bring-up. Whenever the boot is at
/// `main` or beyond, every instruction of the bring-up has completed and the
/// handler has never been entered; and the step that leads to `main` is the
/// one that completes the last instruction, or the end of the initializers
/// if the program is empty.
pub proof fn lemma_main_needs_complete_bring_up(boot: BootView, event: Event)
    requires
        boot_consistent(boot),
    ensures
        ({
            let next = boot_step(boot, event);
            next.phase is Main || next.phase is FiniArray || next.phase is Returned ==> {
                &&& next.run.cursor == issue(next.run.program, next.run.program.len() as int)
                &&& next.handler.state is Armed
            }
        }),
{
    lemma_boot_stays_consistent(boot, event, Trigger::Panic);
}

/// There is one way down and no way back. Once the handler has been
/// entered, whatever is reported and however often, the boot stays down:
/// what is to be done is the shutdown, action by action, and neither a
/// hardware access of the bring-up nor `main` is ever handed out again.
pub proof fn lemma_down_is_final(boot: BootView, events: Seq<Event>)
    requires
        boot.phase is Down,
        boot.handler.state is Handling,
    ensures
        boot_run(boot, events).phase is Down,
        boot_run(boot, events).handler.state is Handling,
        boot_trace(boot, events) == Seq::new(
            events.len(),
            |i: int|
                BootAction::Shutdown(
                    shutdown_action(
                        boot.handler.stack,
                        boot.phase->Down_0,
                        boot.handler.state->Handling_0,
                        i,
                    ),
                ),
        ),
    decreases events.len(),
{
    let stack = boot.handler.stack;
    let first = boot.phase->Down_0;
    let next = boot.handler.state->Handling_0;
    if events.len() > 0 {
        let after = boot_step(boot, events[0]);
        let rest = events.drop_first();
        lemma_down_is_final(after, rest);
        assert(after.phase->Down_0 == action_of(stack, next));
        assert(after.handler.state->Handling_0 == following(next));
        assert forall|i: int| 0 <= i < events.len() implies boot_trace(boot, events)[i]
            == BootAction::Shutdown(shutdown_action(stack, first, next, i)) by {
            if i > 0 {
                assert(boot_trace(boot, events)[i] == boot_trace(after, rest)[i - 1]);
                if i > 1 {
                    assert(nth_following(next, (i - 1) as nat) == nth_following(
                        following(next),
                        (i - 2) as nat,
                    ));
                }
            }
        }
        assert(boot_trace(boot, events) =~= Seq::new(
            events.len(),
            |i: int| BootAction::Shutdown(shutdown_action(stack, first, next, i)),
        ));
    }
}

/// A failed bring-up is routed to the panic handler and nowhere else. If
/// the report for a pending hardware access makes the sequencer fail, the
/// boot goes down at once: the handler is entered as by a panic, so its
/// first action is the report if the debug UART is in use and the stack
/// reset if it is not, and from then on only the shutdown is handed out.
pub proof fn lemma_failed_bring_up_goes_down(boot: BootView, event: Event, later: Seq<Event>)
    requires
        boot_consistent(boot),
        boot.phase is BringUp,
        step(boot.run.program, boot.run.cursor, event).pending is Abort,
    ensures
        ({
            let stack = boot.handler.stack;
            let first = first_step(boot.handler.debug_uart);
            let down = boot_step(boot, event);
            &&& down.phase == Phase::Down(action_of(stack, first))
            &&& down.handler.state == State::Handling(following(first))
            &&& boot_run(down, later).phase is Down
            &&& boot_trace(down, later) == Seq::new(
                later.len(),
                |i: int| BootAction::Shutdown(action_of(stack, nth_following(first, i as nat))),
            )
        }),
{
    let stack = boot.handler.stack;
    let first = first_step(boot.handler.debug_uart);
    let down = boot_step(boot, event);
    lemma_down_is_final(down, later);
    assert forall|i: int| 0 <= i < later.len() implies #[trigger] shutdown_action(
        stack,
        action_of(stack, first),
        following(first),
        i,
    ) == action_of(stack, nth_following(first, i as nat)) by {
        if i > 0 {
            assert(nth_following(first, i as nat) == nth_following(
                following(first),
                (i - 1) as nat,
            ));
        }
    }
    assert(boot_trace(down, later) =~= Seq::new(
        later.len(),
        |i: int| BootAction::Shutdown(action_of(stack, nth_following(first, i as nat))),
    ));
}

/// An exception at any point before the boot is down enters the handler
/// without a report: the stack reset is out, and the boot is down for good.
pub proof fn lemma_exception_goes_down(boot: BootView, later: Seq<Event>)
    requires
        boot_consistent(boot),
        !(boot.phase is Down),
    ensures
        ({
            let down = boot_interrupt(boot, Trigger::Exception);
            &&& down.phase == Phase::Down(PanicAction::ResetStack(boot.handler.stack.end))
            &&& boot_run(down, later).phase is Down
        }),
{
    lemma_down_is_final(boot_interrupt(boot, Trigger::Exception), later);
}

/// Feeding `first + rest` is feeding `first`, then `rest`.
pub proof fn lemma_boot_run_concat(boot: BootView, first: Seq<Event>, rest: Seq<Event>)
    ensures
        boot_run(boot, first + rest) == boot_run(boot_run(boot, first), rest),
        boot_trace(boot, first + rest) == boot_trace(boot, first) + boot_trace(
            boot_run(boot, first),
            rest,
        ),
    decreases first.len(),
{
    if first.len() == 0 {
        assert(first + rest =~= rest);
    } else {
        let events = first + rest;
        assert(events[0] == first[0]);
        assert(events.drop_first() =~= first.drop_first() + rest);
        lemma_boot_run_concat(boot_step(boot, first[0]), first.drop_first(), rest);
    }
}

/// The hardware accesses `actions` as the boot hands them out.
pub open spec fn hardware(actions: Seq<Action>) -> Seq<BootAction> {
    Seq::new(actions.len(), |i: int| BootAction::Hardware(actions[i]))
}

/// The boot with the bring-up at the start of instruction `pc`: in the
/// bring-up while there is an instruction left, at `main` when there is
/// none.
pub open spec fn at_instruction(boot: BootView, pc: int) -> BootView {
    BootView {
        phase: if 0 <= pc < boot.run.program.len() {
            Phase::BringUp
        } else {
            Phase::Main
        },
        run: Run { cursor: issue(boot.run.program, pc), ..boot.run },
        ..boot
    }
}

/// One instruction of a fault-free bring-up, seen from the boot.
proof fn lemma_boot_instruction(boot: BootView, pc: int, read: u32)
    requires
        0 <= pc < boot.run.program.len(),
    ensures
        boot_run(at_instruction(boot, pc), reports(boot.run.program[pc], read)) == at_instruction(
            boot,
            pc + 1,
        ),
        boot_trace(at_instruction(boot, pc), reports(boot.run.program[pc], read)) == hardware(
            accesses(boot.run.program[pc], read),
        ),
{
    let program = boot.run.program;
    let start = at_instruction(boot, pc);
    let events = reports(program[pc], read);
    reveal_with_fuel(boot_run, 3);
    reveal_with_fuel(boot_trace, 3);
    match program[pc] {
        Instr::Modify { .. } => {
            assert(events.drop_first() =~= seq![Event::Done]);
            assert(events.drop_first().drop_first() =~= Seq::<Event>::empty());
            assert(boot_trace(start, events) =~= hardware(accesses(program[pc], read)));
        },
        _ => {
            assert(events.drop_first() =~= Seq::<Event>::empty());
            assert(boot_trace(start, events) =~= hardware(accesses(program[pc], read)));
        },
    }
}

/// The instructions `from..to` of a fault-free bring-up, seen from the boot.
proof fn lemma_boot_instructions(boot: BootView, reads: Seq<u32>, from: int, to: int)
    requires
        0 <= from <= to <= boot.run.program.len(),
    ensures
        boot_run(at_instruction(boot, from), reports_of(boot.run.program, reads, from, to))
            == at_instruction(boot, to),
        boot_trace(at_instruction(boot, from), reports_of(boot.run.program, reads, from, to))
            == hardware(accesses_of(boot.run.program, reads, from, to)),
    decreases to - from,
{
    let program = boot.run.program;
    if from < to {
        let head = reports(program[from], reads[from]);
        let tail = reports_of(program, reads, from + 1, to);
        lemma_boot_instruction(boot, from, reads[from]);
        lemma_boot_instructions(boot, reads, from + 1, to);
        lemma_boot_run_concat(at_instruction(boot, from), head, tail);
        assert(hardware(accesses(program[from], reads[from])) + hardware(
            accesses_of(program, reads, from + 1, to),
        ) =~= hardware(accesses_of(program, reads, from, to)));
    } else {
        assert(boot_trace(at_instruction(boot, from), Seq::<Event>::empty()) =~= hardware(
            accesses_of(program, reads, from, to),
        ));
    }
}

/// The order of a boot on which nothing fails. From its very beginning the
/// boot poisons the exception vectors, clears `.bss`, calls the
/// initializers, hands out the accesses of the whole bring-up in program
/// order, runs `main`, calls the finalizers and returns; the panic handler
/// stays armed throughout.
pub proof fn lemma_boot_in_order(config: Config, stack: MemoryRange, reads: Seq<u32>)
    ensures
        ({
            let program = bring_up_program(config);
            let boot = BootView {
                phase: Phase::Vectors,
                run: Run { program, cursor: issue(program, 0) },
                handler: PanicView { stack, debug_uart: config.debug_uart, state: State::Armed },
            };
            let done = seq![Event::Done];
            let events = done + done + done + reports_of(program, reads, 0, program.len() as int)
                + done + done;
            &&& boot_run(boot, events).phase == Phase::Returned
            &&& boot_run(boot, events).handler == boot.handler
            &&& boot_trace(boot, events) == seq![
                BootAction::SetupExceptionVectors,
                BootAction::ClearBss,
                BootAction::CallInitArray,
            ] + hardware(accesses_of(program, reads, 0, program.len() as int)) + seq![
                BootAction::Main,
                BootAction::CallFiniArray,
            ]
        }),
{
    let program = bring_up_program(config);
    let boot = BootView {
        phase: Phase::Vectors,
        run: Run { program, cursor: issue(program, 0) },
        handler: PanicView { stack, debug_uart: config.debug_uart, state: State::Armed },
    };
    let done = seq![Event::Done];
    let prelude = done + done + done;
    let middle = reports_of(program, reads, 0, program.len() as int);
    let epilogue = done + done;
    reveal_with_fuel(boot_run, 4);
    reveal_with_fuel(boot_trace, 4);

    // Vectors, .bss and initializers.
    assert(prelude.drop_first() =~= done + done);
    assert(prelude.drop_first().drop_first() =~= done);
    assert(prelude.drop_first().drop_first().drop_first() =~= Seq::<Event>::empty());
    let ready = boot_run(boot, prelude);
    assert(ready == at_instruction(boot, 0));
    assert(boot_trace(boot, prelude) =~= seq![
        BootAction::SetupExceptionVectors,
        BootAction::ClearBss,
        BootAction::CallInitArray,
    ]);

    // The bring-up.
    lemma_boot_instructions(boot, reads, 0, program.len() as int);
    let up = boot_run(ready, middle);
    assert(up == at_instruction(boot, program.len() as int));
    assert(up.phase == Phase::Main);

    // Main and finalizers.
    assert(epilogue.drop_first() =~= done);
    assert(epilogue.drop_first().drop_first() =~= Seq::<Event>::empty());
    assert(boot_trace(up, epilogue) =~= seq![BootAction::Main, BootAction::CallFiniArray]);
    assert(boot_run(up, epilogue).phase == Phase::Returned);

    lemma_boot_run_concat(boot, prelude, middle);
    lemma_boot_run_concat(boot, prelude + middle, epilogue);
    let events = done + done + done + middle + done + done;
    assert(events =~= prelude + middle + epilogue);
    assert(boot_trace(boot, events) =~= seq![
        BootAction::SetupExceptionVectors,
        BootAction::ClearBss,
        BootAction::CallInitArray,
    ] + hardware(accesses_of(program, reads, 0, program.len() as int)) + seq![
        BootAction::Main,
        BootAction::CallFiniArray,
    ]);
}

} // verus!
