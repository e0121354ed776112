//! Panic and exception handling in the early boot stage.
//!
//! The handler is a machine with two states. It is *armed* from the moment
//! the exception vectors point at it, and it is *handling* from the moment
//! it is entered, by a panic or by a CPU exception, for good: it scrubs what
//! must not stay in memory, and then halts the processor over and over.
//! Nothing that is reported back to it can make it fail, stop or return,
//! and none of its functions can panic.

use crate::hal::DriverOp;
use crate::memory::{memset, MemoryRange, WORD};
use crate::{BOOTLOADER_SIZE, BOOTLOADER_START, SECURITY_ENGINE};
use vstd::prelude::*;

verus! {

/// Number of slots in the exception vector table.
pub const EXCEPTION_VECTOR_COUNT: usize = 8;

/// One step of the shutdown.
#[derive(Clone, Copy, Debug, PartialEq, Eq, Structural)]
pub enum Step {
    /// Emit the diagnostic message.
    Report,
    /// Reset the stack pointer.
    ResetStack,
    /// Zero the stack.
    ClearStack,
    /// Disable the Security Engine.
    DisableEngine,
    /// Disable fuse programming.
    DisableFuses,
    /// Zero the second-stage bootloader image.
    ClearImage,
    /// Halt the processor.
    Halt,
}

/// What sets the handler off.
#[derive(Clone, Copy, Debug, PartialEq, Eq, Structural)]
pub enum Trigger {
    /// A panic raised by the bootloader's own code.
    Panic,
    /// A CPU exception, taken through a poisoned vector.
    Exception,
}

/// State of the handler.
#[derive(Clone, Copy, Debug, PartialEq, Eq, Structural)]
pub enum State {
    /// Installed and waiting.
    Armed,
    /// Entered; the step is the one that comes next.
    Handling(Step),
}

/// What the machine layer has to do next on the way down.
#[derive(Clone, Copy, Debug, PartialEq, Eq, Structural)]
pub enum PanicAction {
    /// Write the diagnostic message to the UART. A failure to transmit is
    /// ignored.
    Report,
    /// Load the stack pointer with this address, abandoning every frame.
    ResetStack(u32),
    /// Zero every word of the range.
    Clear(MemoryRange),
    /// Run the driver operation.
    Driver(DriverOp),
    /// Put the processor into its low-power wait. If it wakes up, ask again.
    Halt,
}

/// The part of the stack that is zeroed: all of it but the topmost word,
/// which holds the return address of the routine that does the zeroing. A
/// stack too small to hold that word is left alone.
pub open spec fn scrubbed_stack(stack: MemoryRange) -> MemoryRange {
    MemoryRange {
        start: stack.start,
        end: if stack.end - stack.start >= WORD {
            (stack.end - WORD) as u32
        } else {
            stack.start
        },
    }
}

/// Where the second-stage bootloader image lies.
pub open spec fn image_range() -> MemoryRange {
    MemoryRange { start: BOOTLOADER_START, end: (BOOTLOADER_START + BOOTLOADER_SIZE) as u32 }
}

/// The step with which handling begins: the report if one is due, else the
/// stack reset.
pub open spec fn first_step(report: bool) -> Step {
    if report {
        Step::Report
    } else {
        Step::ResetStack
    }
}

/// The step that comes after `step`. After the halt comes the halt.
pub open spec fn following(step: Step) -> Step {
    match step {
        Step::Report => Step::ResetStack,
        Step::ResetStack => Step::ClearStack,
        Step::ClearStack => Step::DisableEngine,
        Step::DisableEngine => Step::DisableFuses,
        Step::DisableFuses => Step::ClearImage,
        Step::ClearImage => Step::Halt,
        Step::Halt => Step::Halt,
    }
}

/// What `step` asks of the machine, for a stack at `stack`.
pub open spec fn action_of(stack: MemoryRange, step: Step) -> PanicAction {
    match step {
        Step::Report => PanicAction::Report,
        Step::ResetStack => PanicAction::ResetStack(stack.end),
        Step::ClearStack => PanicAction::Clear(scrubbed_stack(stack)),
        Step::DisableEngine => PanicAction::Driver(DriverOp::SeDisable(SECURITY_ENGINE)),
        Step::DisableFuses => PanicAction::Driver(DriverOp::FuseDisableProgramming),
        Step::ClearImage => PanicAction::Clear(image_range()),
        Step::Halt => PanicAction::Halt,
    }
}

/// Whether a handler entered by `trigger` begins with the report: only a
/// panic is reported, and only with the debug UART.
pub open spec fn reported(trigger: Trigger, debug_uart: bool) -> bool {
    trigger == Trigger::Panic && debug_uart
}

/// The handler after it has been entered or resumed by `trigger` and has
/// handed out the action that was due.
pub open spec fn entered(handler: PanicView, trigger: Trigger) -> PanicView {
    PanicView {
        state: State::Handling(
            following(due(handler.state, reported(trigger, handler.debug_uart))),
        ),
        ..handler
    }
}

/// The action that a handler entered or resumed by `trigger` hands out.
pub open spec fn entry_action(handler: PanicView, trigger: Trigger) -> PanicAction {
    action_of(handler.stack, due(handler.state, reported(trigger, handler.debug_uart)))
}

/// The step that is due in `state` when the handler is entered or resumed:
/// an armed handler begins, a handling one goes on where it stands.
pub open spec fn due(state: State, report: bool) -> Step {
    match state {
        State::Armed => first_step(report),
        State::Handling(step) => step,
    }
}

/// The step reached from `step` after `n` further steps.
pub open spec fn nth_following(step: Step, n: nat) -> Step
    decreases n,
{
    if n == 0 {
        step
    } else {
        nth_following(following(step), (n - 1) as nat)
    }
}

/// The first `n` actions of a shutdown that begins with `first`.
pub open spec fn shutdown(stack: MemoryRange, first: Step, n: nat) -> Seq<PanicAction> {
    Seq::new(n, |i: int| action_of(stack, nth_following(first, i as nat)))
}

/// The panic handler of the bootloader.
pub struct PanicHandler {
    stack: MemoryRange,
    debug_uart: bool,
    state: State,
}

/// What can be observed of a [`PanicHandler`].
pub struct PanicView {
    pub stack: MemoryRange,
    pub debug_uart: bool,
    pub state: State,
}

impl View for PanicHandler {
    type V = PanicView;

    closed spec fn view(&self) -> PanicView {
        PanicView { stack: self.stack, debug_uart: self.debug_uart, state: self.state }
    }
}

impl PanicHandler {
    /// An armed handler for a stack that occupies `stack` and grows down from
    /// its end. With `debug_uart` a panic is reported over the UART before
    /// anything else happens.
    pub fn new(stack: MemoryRange, debug_uart: bool) -> (handler: PanicHandler)
        ensures
            handler@ == (PanicView { stack, debug_uart, state: State::Armed }),
        no_unwind
    {
        PanicHandler { stack, debug_uart, state: State::Armed }
    }

    /// Enters the handler by `trigger`, or resumes it, and returns what has
    /// to be done next: [`panic`] for a panic, [`panic_handler`] for an
    /// exception.
    pub fn enter(&mut self, trigger: Trigger) -> (action: PanicAction)
        ensures
            action == entry_action(old(self)@, trigger),
            final(self)@ == entered(old(self)@, trigger),
        no_unwind
    {
        match trigger {
            Trigger::Panic => crate::panic::panic(self),
            Trigger::Exception => panic_handler(self),
        }
    }

    /// The state of the handler.
    pub fn state(&self) -> (state: State)
        ensures
            state == self@.state,
        no_unwind
    {
        self.state
    }

    /// Hands out the action of `step` and moves on to the step after it.
    fn perform(&mut self, step: Step) -> (action: PanicAction)
        ensures
            action == action_of(old(self)@.stack, step),
            final(self)@ == (PanicView { state: State::Handling(following(step)), ..old(self)@ }),
        no_unwind
    {
        let stack = self.stack;
        let (action, next) = match step {
            Step::Report => (PanicAction::Report, Step::ResetStack),
            Step::ResetStack => (PanicAction::ResetStack(stack.end), Step::ClearStack),
            Step::ClearStack => {
                let end: u32 = if stack.end >= stack.start && stack.end - stack.start >= WORD {
                    stack.end - WORD
                } else {
                    stack.start
                };
                (
                    PanicAction::Clear(MemoryRange { start: stack.start, end }),
                    Step::DisableEngine,
                )
            },
            Step::DisableEngine => (
                PanicAction::Driver(DriverOp::SeDisable(SECURITY_ENGINE)),
                Step::DisableFuses,
            ),
            Step::DisableFuses => (
                PanicAction::Driver(DriverOp::FuseDisableProgramming),
                Step::ClearImage,
            ),
            Step::ClearImage => (
                PanicAction::Clear(
                    MemoryRange {
                        start: BOOTLOADER_START,
                        end: BOOTLOADER_START + BOOTLOADER_SIZE,
                    },
                ),
                Step::Halt,
            ),
            Step::Halt => (PanicAction::Halt, Step::Halt),
        };
        self.state = State::Handling(next);
        action
    }
}

/// The panic handler proper, which the exception vectors point at.
///
/// Enters an armed handler, or resumes one that is handling, and returns
/// what has to be done next: reset the stack pointer to the end of the
/// stack, zero the stack below its topmost word, disable the Security
/// Engine, disable fuse programming, zero the bootloader image, and from
/// then on halt, each time it is asked.
pub fn panic_handler(handler: &mut PanicHandler) -> (action: PanicAction)
    ensures
        action == entry_action(old(handler)@, Trigger::Exception),
        final(handler)@ == entered(old(handler)@, Trigger::Exception),
    no_unwind
{
    let step = match handler.state {
        State::Armed => Step::ResetStack,
        State::Handling(step) => step,
    };
    handler.perform(step)
}

/// The entry for a panic raised by the bootloader's own code.
///
/// As [`panic_handler`], except that an armed handler with the debug UART
/// begins by asking for the diagnostic message.
pub fn panic(handler: &mut PanicHandler) -> (action: PanicAction)
    ensures
        action == entry_action(old(handler)@, Trigger::Panic),
        final(handler)@ == entered(old(handler)@, Trigger::Panic),
    no_unwind
{
    match handler.state {
        State::Armed => if handler.debug_uart {
            handler.perform(Step::Report)
        } else {
            panic_handler(handler)
        },
        State::Handling(_) => panic_handler(handler),
    }
}

/// The exception handling personality function. There is no unwinding in
/// the bootloader, so it does nothing.
pub fn eh_personality() {
}

/// Poisons the exception vectors with the address of the panic handler:
/// every slot of the table ends up holding `handler`.
pub fn setup_exception_vectors(vectors: &mut [u32; 8], handler: u32)
    ensures
        final(vectors)@ == Seq::new(EXCEPTION_VECTOR_COUNT as nat, |i: int| handler),
    no_unwind
{
    memset(vectors, 0..EXCEPTION_VECTOR_COUNT, handler);
    assert(vectors@ =~= Seq::new(EXCEPTION_VECTOR_COUNT as nat, |i: int| handler));
}

/// Once the halt is reached it is never left.
pub proof fn lemma_halt_is_final(n: nat)
    ensures
        nth_following(Step::Halt, n) == Step::Halt,
    decreases n,
{
    if n > 0 {
        lemma_halt_is_final((n - 1) as nat);
    }
}

/// The shutdown in full. From the stack reset on, the first five actions
/// are: reset the stack pointer to the end of the stack, zero the stack
/// below its topmost word, disable the Security Engine, disable fuse
/// programming, zero the bootloader image. Every action after them, without
/// end, is the halt.
pub proof fn lemma_shutdown_halts_forever(stack: MemoryRange, n: nat)
    requires
        n >= 5,
    ensures
        shutdown(stack, Step::ResetStack, n) == seq![
            PanicAction::ResetStack(stack.end),
            PanicAction::Clear(scrubbed_stack(stack)),
            PanicAction::Driver(DriverOp::SeDisable(SECURITY_ENGINE)),
            PanicAction::Driver(DriverOp::FuseDisableProgramming),
            PanicAction::Clear(image_range()),
        ] + Seq::new((n - 5) as nat, |i: int| PanicAction::Halt),
{
    let actions = shutdown(stack, Step::ResetStack, n);
    let expected = seq![
        PanicAction::ResetStack(stack.end),
        PanicAction::Clear(scrubbed_stack(stack)),
        PanicAction::Driver(DriverOp::SeDisable(SECURITY_ENGINE)),
        PanicAction::Driver(DriverOp::FuseDisableProgramming),
        PanicAction::Clear(image_range()),
    ] + Seq::new((n - 5) as nat, |i: int| PanicAction::Halt);
    assert forall|i: int| 0 <= i < n implies actions[i] == expected[i] by {
        lemma_steps_from_reset(i as nat);
    }
    assert(actions =~= expected);
}

/// Where the shutdown stands `n` steps after the stack reset.
proof fn lemma_steps_from_reset(n: nat)
    ensures
        nth_following(Step::ResetStack, n) == if n == 0 {
            Step::ResetStack
        } else if n == 1 {
            Step::ClearStack
        } else if n == 2 {
            Step::DisableEngine
        } else if n == 3 {
            Step::DisableFuses
        } else if n == 4 {
            Step::ClearImage
        } else {
            Step::Halt
        },
{
    reveal_with_fuel(nth_following, 6);
    if n >= 5 {
        lemma_nth_following_splits(Step::ResetStack, 5, (n - 5) as nat);
        lemma_halt_is_final((n - 5) as nat);
    }
}

/// Taking `a + b` steps is taking `a` steps, then `b`.
proof fn lemma_nth_following_splits(step: Step, a: nat, b: nat)
    ensures
        nth_following(step, a + b) == nth_following(nth_following(step, a), b),
    decreases a,
{
    if a > 0 {
        lemma_nth_following_splits(following(step), (a - 1) as nat, b);
    }
}

/// A shutdown that begins with the report goes on exactly as one that does
/// not: the report comes first and changes nothing of what follows.
pub proof fn lemma_report_changes_nothing(stack: MemoryRange, n: nat)
    ensures
        shutdown(stack, Step::Report, n + 1) == seq![PanicAction::Report] + shutdown(
            stack,
            Step::ResetStack,
            n,
        ),
{
    let with_report = shutdown(stack, Step::Report, n + 1);
    let without = seq![PanicAction::Report] + shutdown(stack, Step::ResetStack, n);
    assert forall|i: int| 0 <= i < n + 1 implies with_report[i] == without[i] by {
        if i > 0 {
            lemma_nth_following_splits(Step::Report, 1, (i - 1) as nat);
            reveal_with_fuel(nth_following, 2);
        }
    }
    assert(with_report =~= without);
}

/// For a stack that holds at least one word, what is zeroed is the whole
/// stack but its topmost word.
pub proof fn lemma_scrub_spares_top_word(stack: MemoryRange)
    requires
        stack.start + WORD <= stack.end,
    ensures
        scrubbed_stack(stack).start == stack.start,
        scrubbed_stack(stack).end + WORD == stack.end,
{
}

} // verus!
