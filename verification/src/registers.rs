//! The bring-up seen from the registers: what a program leaves behind in a
//! register file that holds what is written to it.
//!
//! This is a model. It says nothing of registers that hardware changes on
//! its own, nor of what the driver operations do to the blocks they own; it
//! says what the program's own writes amount to, which is what the words in
//! the program were chosen for.

use crate::hal::{Clock, DriverOp, Register};
use crate::init::{
    boot_reason_stage, bring_up_program, early_stages, final_stages, oscillator_stage,
    pinmux_stage, pmc_scratch_stage, power_stages, uart_stage, Config,
};
use crate::sequencer::{issue, merged, Action, Instr};
use crate::trace::{accesses, accesses_of, lemma_fault_free_run, reports_of, trace};
use vstd::prelude::*;

verus! {

/// A register file as plain storage: the word that each register holds.
pub type RegisterFile = spec_fn(Register) -> u32;

/// The register file after `value` has been stored to `reg`.
pub open spec fn stored(regs: RegisterFile, reg: Register, value: u32) -> RegisterFile {
    |r: Register| if r == reg { value } else { regs(r) }
}

/// The register file after one instruction. Only writes and
/// read-modify-writes touch it.
pub open spec fn effect(regs: RegisterFile, instr: Instr) -> RegisterFile {
    match instr {
        Instr::Write { reg, value } => stored(regs, reg, value),
        Instr::Modify { reg, keep, set } => stored(regs, reg, merged(regs(reg), keep, set)),
        _ => regs,
    }
}

/// The register file after the first `k` instructions of `program`.
pub open spec fn after(regs: RegisterFile, program: Seq<Instr>, k: int) -> RegisterFile
    decreases k,
{
    if k <= 0 {
        regs
    } else {
        effect(after(regs, program, k - 1), program[k - 1])
    }
}

/// The register file after the whole of `program`.
pub open spec fn after_all(regs: RegisterFile, program: Seq<Instr>) -> RegisterFile {
    after(regs, program, program.len() as int)
}

/// The register file after the first `k` of `actions` have been performed on
/// it: each write stores its word, and nothing else changes anything.
pub open spec fn performed(regs: RegisterFile, actions: Seq<Action>, k: int) -> RegisterFile
    decreases k,
{
    if k <= 0 {
        regs
    } else {
        let before = performed(regs, actions, k - 1);
        match actions[k - 1] {
            Action::Write(reg, value) => stored(before, reg, value),
            _ => before,
        }
    }
}

/// The words that the reads of `program` return when it runs on the
/// register file `regs`: each read-modify-write sees what the instructions
/// before it have left in its register.
pub open spec fn storage_reads(regs: RegisterFile, program: Seq<Instr>) -> Seq<u32> {
    Seq::new(
        program.len(),
        |i: int|
            match program[i] {
                Instr::Modify { reg, .. } => after(regs, program, i)(reg),
                _ => 0u32,
            },
    )
}

/// Running `first + rest` is running `first`, then `rest`.
pub proof fn lemma_after_concat(regs: RegisterFile, first: Seq<Instr>, rest: Seq<Instr>, k: int)
    requires
        0 <= k <= rest.len(),
    ensures
        after(regs, first + rest, first.len() + k) == after(after_all(regs, first), rest, k),
        forall|j: int| 0 <= j <= first.len() ==> after(regs, first + rest, j) == after(
            regs,
            first,
            j,
        ),
    decreases k,
{
    assert forall|j: int| 0 <= j <= first.len() implies after(regs, first + rest, j) == after(
        regs,
        first,
        j,
    ) by {
        lemma_after_prefix(regs, first, rest, j);
    }
    if k > 0 {
        lemma_after_concat(regs, first, rest, k - 1);
        assert((first + rest)[first.len() + k - 1] == rest[k - 1]);
    }
}

/// The first `j` instructions of `first + rest` are those of `first`.
proof fn lemma_after_prefix(regs: RegisterFile, first: Seq<Instr>, rest: Seq<Instr>, j: int)
    requires
        0 <= j <= first.len(),
    ensures
        after(regs, first + rest, j) == after(regs, first, j),
    decreases j,
{
    if j > 0 {
        lemma_after_prefix(regs, first, rest, j - 1);
        assert((first + rest)[j - 1] == first[j - 1]);
    }
}

/// The whole of `first + rest` is the whole of `first`, then the whole of
/// `rest`.
pub proof fn lemma_after_all_concat(regs: RegisterFile, first: Seq<Instr>, rest: Seq<Instr>)
    ensures
        after_all(regs, first + rest) == after_all(after_all(regs, first), rest),
{
    lemma_after_concat(regs, first, rest, rest.len() as int);
}

/// Instructions that neither write nor modify a register leave the register
/// file as it is.
pub proof fn lemma_calls_change_nothing(regs: RegisterFile, program: Seq<Instr>, k: int)
    requires
        0 <= k <= program.len(),
        forall|i: int|
            0 <= i < program.len() ==> (#[trigger] program[i] is Call || program[i] is Transfer),
    ensures
        after(regs, program, k) == regs,
    decreases k,
{
    if k > 0 {
        lemma_calls_change_nothing(regs, program, k - 1);
        assert(program[k - 1] is Call || program[k - 1] is Transfer);
    }
}

/// Performing `first + rest` is performing `first`, then `rest`.
pub proof fn lemma_performed_concat(
    regs: RegisterFile,
    first: Seq<Action>,
    rest: Seq<Action>,
    k: int,
)
    requires
        0 <= k <= rest.len(),
    ensures
        performed(regs, first + rest, first.len() + k) == performed(
            performed(regs, first, first.len() as int),
            rest,
            k,
        ),
    decreases k,
{
    if k > 0 {
        lemma_performed_concat(regs, first, rest, k - 1);
        assert((first + rest)[first.len() + k - 1] == rest[k - 1]);
    } else {
        lemma_performed_prefix(regs, first, rest, first.len() as int);
    }
}

/// The first `j` actions of `first + rest` are those of `first`.
proof fn lemma_performed_prefix(regs: RegisterFile, first: Seq<Action>, rest: Seq<Action>, j: int)
    requires
        0 <= j <= first.len(),
    ensures
        performed(regs, first + rest, j) == performed(regs, first, j),
    decreases j,
{
    if j > 0 {
        lemma_performed_prefix(regs, first, rest, j - 1);
        assert((first + rest)[j - 1] == first[j - 1]);
    }
}

/// The accesses of the instructions `from..to` are those of `from..to - 1`
/// followed by those of the last instruction.
proof fn lemma_accesses_extend(program: Seq<Instr>, reads: Seq<u32>, from: int, to: int)
    requires
        from < to,
    ensures
        accesses_of(program, reads, from, to) == accesses_of(program, reads, from, to - 1)
            + accesses(program[to - 1], reads[to - 1]),
    decreases to - from,
{
    let last = accesses(program[to - 1], reads[to - 1]);
    if from + 1 < to {
        lemma_accesses_extend(program, reads, from + 1, to);
        let head = accesses(program[from], reads[from]);
        let middle = accesses_of(program, reads, from + 1, to - 1);
        assert(head + (middle + last) =~= (head + middle) + last);
    } else {
        let head = accesses(program[from], reads[from]);
        assert(accesses_of(program, reads, from + 1, to) =~= Seq::<Action>::empty());
        assert(accesses_of(program, reads, from, to - 1) =~= Seq::<Action>::empty());
        assert(head + Seq::<Action>::empty() =~= Seq::<Action>::empty() + last);
    }
}

/// On a register file that holds what is written to it, the accesses of the
/// first `to` instructions leave behind exactly what those instructions
/// stand for: the sequencer's reads and computed writes amount to the
/// program's read-modify-writes.
pub proof fn lemma_accesses_amount_to_program(regs: RegisterFile, program: Seq<Instr>, to: int)
    requires
        0 <= to <= program.len(),
    ensures
        ({
            let actions = accesses_of(program, storage_reads(regs, program), 0, to);
            performed(regs, actions, actions.len() as int) == after(regs, program, to)
        }),
    decreases to,
{
    let reads = storage_reads(regs, program);
    if to > 0 {
        lemma_accesses_amount_to_program(regs, program, to - 1);
        lemma_accesses_extend(program, reads, 0, to);
        let earlier = accesses_of(program, reads, 0, to - 1);
        let instr = program[to - 1];
        let last = accesses(instr, reads[to - 1]);
        let state = after(regs, program, to - 1);
        lemma_performed_concat(regs, earlier, last, last.len() as int);
        reveal_with_fuel(performed, 3);
        match instr {
            Instr::Modify { reg, .. } => {
                assert(reads[to - 1] == state(reg));
                assert(last.len() == 2);
            },
            _ => {
                assert(last.len() == 1);
            },
        }
    } else {
        assert(accesses_of(program, reads, 0, 0) =~= Seq::<Action>::empty());
    }
}

/// A complete fault-free run on a register file that holds what is written
/// to it: what the sequencer hands out is the accesses of the program in
/// order, and performing them leaves the register file in the state that the
/// program stands for.
pub proof fn lemma_run_amounts_to_program(regs: RegisterFile, program: Seq<Instr>)
    ensures
        ({
            let reads = storage_reads(regs, program);
            let events = reports_of(program, reads, 0, program.len() as int);
            let actions = trace(program, issue(program, 0), events);
            performed(regs, actions, actions.len() as int) == after_all(regs, program)
        }),
{
    let reads = storage_reads(regs, program);
    lemma_fault_free_run(program, reads, 0, program.len() as int);
    lemma_accesses_amount_to_program(regs, program, program.len() as int);
}

/// What a complete bring-up leaves in a register file that held `before`.
///
/// Registers that the program writes outright hold the word written last.
/// Registers that it modifies hold their old word with the masked bits
/// replaced. The scratch registers change only if that stage is part of the
/// bring-up.
pub open spec fn bring_up_state(config: Config, before: RegisterFile) -> RegisterFile {
    |r: Register|
        match r {
            Register::StrappingOptA => (before(r) & 0xF0) | 0x1C00,
            Register::PinmuxGlobal => 0,
            Register::CarSpareReg0 => (before(r) & 0xFFFF_FFF3) | 0x4,
            Register::CarOscCtrl => 0x5000_0071,
            Register::CarClkSystemRate => 0x2,
            Register::CarPllmbBase => before(r) & 0xBFFF_FFFF,
            Register::CarClkSourceSys => 0,
            Register::CarSclkBurstPolicy => 0x2000_3333,
            Register::CarSuperSclkDivider => 0x8000_0000,
            Register::Sysctr0Cntfid0 => 19_200_000,
            Register::TimerusUsecCfg => 0x45F,
            Register::PmcScratch200 => 0,
            Register::PmcRstStatus => 0,
            Register::PmcOscEdpdOver => (before(r) & 0xFFBF_FF81) | 0x40_000E,
            Register::PmcCntrl2 => before(r) | 0x1000,
            Register::PmcScratch188 => (before(r) & 0xFCFF_FFFF) | 0x200_0000,
            Register::PmcTscMult => (before(r) & 0xFFFF_0000) | 0x249F,
            Register::PmcScratch20 => if config.lock_pmc_scratch {
                before(r) & 0xFFF3_FFFF
            } else {
                before(r)
            },
            Register::PmcScratch190 => if config.lock_pmc_scratch {
                before(r) & 0xFFFF_FFFE
            } else {
                before(r)
            },
            Register::PmcSecureScratch21 => if config.lock_pmc_scratch {
                before(r) | 0x10
            } else {
                before(r)
            },
        }
}

/// What the boot-reason stage leaves behind.
proof fn lemma_boot_reason_effect(before: RegisterFile)
    ensures
        after_all(before, boot_reason_stage()) == stored(
            stored(
                stored(before, Register::PmcScratch200, 0),
                Register::PmcRstStatus,
                0,
            ),
            Register::StrappingOptA,
            (before(Register::StrappingOptA) & 0xF0) | 0x1C00,
        ),
{
    let stage = boot_reason_stage();
    let v = before(Register::StrappingOptA);
    assert(stage.len() == 4);
    reveal_with_fuel(after, 5);
    assert((((v & 0xF0) | 0) & 0xFFFF_E3FF) | 0x1C00 == (v & 0xF0) | 0x1C00) by (bit_vector);
    assert(after_all(before, stage) =~= stored(
        stored(stored(before, Register::PmcScratch200, 0), Register::PmcRstStatus, 0),
        Register::StrappingOptA,
        (v & 0xF0) | 0x1C00,
    ));
}

/// What the oscillator stage leaves behind.
proof fn lemma_oscillator_effect(before: RegisterFile)
    ensures
        ({
            let end = after_all(before, oscillator_stage());
            &&& end(Register::CarSpareReg0) == (before(Register::CarSpareReg0) & 0xFFFF_FFF3) | 0x4
            &&& end(Register::Sysctr0Cntfid0) == 19_200_000
            &&& end(Register::TimerusUsecCfg) == 0x45F
            &&& end(Register::CarOscCtrl) == 0x5000_0071
            &&& end(Register::PmcOscEdpdOver) == (before(Register::PmcOscEdpdOver) & 0xFFBF_FF81)
                | 0x40_000E
            &&& end(Register::PmcCntrl2) == before(Register::PmcCntrl2) | 0x1000
            &&& end(Register::PmcScratch188) == (before(Register::PmcScratch188) & 0xFCFF_FFFF)
                | 0x200_0000
            &&& end(Register::CarClkSystemRate) == 0x2
            &&& end(Register::CarPllmbBase) == before(Register::CarPllmbBase) & 0xBFFF_FFFF
            &&& end(Register::PmcTscMult) == (before(Register::PmcTscMult) & 0xFFFF_0000) | 0x249F
            &&& end(Register::CarClkSourceSys) == 0
            &&& end(Register::CarSclkBurstPolicy) == 0x2000_4444
            &&& end(Register::CarSuperSclkDivider) == 0x8000_0000
            &&& end(Register::StrappingOptA) == before(Register::StrappingOptA)
            &&& end(Register::PinmuxGlobal) == before(Register::PinmuxGlobal)
            &&& end(Register::PmcScratch200) == before(Register::PmcScratch200)
            &&& end(Register::PmcRstStatus) == before(Register::PmcRstStatus)
            &&& end(Register::PmcScratch20) == before(Register::PmcScratch20)
            &&& end(Register::PmcScratch190) == before(Register::PmcScratch190)
            &&& end(Register::PmcSecureScratch21) == before(Register::PmcSecureScratch21)
        }),
{
    let stage = oscillator_stage();
    assert(stage.len() == 15);
    reveal_with_fuel(after, 16);
    let edpd = before(Register::PmcOscEdpdOver);
    let cntrl2 = before(Register::PmcCntrl2);
    let pllmb = before(Register::CarPllmbBase);
    assert((((edpd & 0xFFFF_FF81) | 0xE) & 0xFFBF_FFFF) | 0x40_0000 == (edpd & 0xFFBF_FF81)
        | 0x40_000E) by (bit_vector);
    assert((cntrl2 & 0xFFFF_EFFF) | 0x1000 == cntrl2 | 0x1000) by (bit_vector);
    assert((pllmb & 0xBFFF_FFFF) | 0 == pllmb & 0xBFFF_FFFF) by (bit_vector);
}

/// What the pin stage leaves behind: the clamp, and nothing else.
proof fn lemma_pinmux_effect(before: RegisterFile)
    ensures
        after_all(before, pinmux_stage()) == stored(before, Register::PinmuxGlobal, 0),
{
    let clamp = seq![Instr::Write { reg: Register::PinmuxGlobal, value: 0 }];
    let calls = pinmux_stage().subrange(1, pinmux_stage().len() as int);
    assert(pinmux_stage() =~= clamp + calls);
    lemma_after_all_concat(before, clamp, calls);
    reveal_with_fuel(after, 2);
    lemma_calls_change_nothing(after_all(before, clamp), calls, calls.len() as int);
    assert(after_all(before, clamp) =~= stored(before, Register::PinmuxGlobal, 0));
}

/// What the scratch-register stage leaves behind.
proof fn lemma_scratch_effect(before: RegisterFile)
    ensures
        after_all(before, pmc_scratch_stage()) == stored(
            stored(
                stored(
                    before,
                    Register::PmcScratch20,
                    before(Register::PmcScratch20) & 0xFFF3_FFFF,
                ),
                Register::PmcScratch190,
                before(Register::PmcScratch190) & 0xFFFF_FFFE,
            ),
            Register::PmcSecureScratch21,
            before(Register::PmcSecureScratch21) | 0x10,
        ),
{
    let stage = pmc_scratch_stage();
    let a = before(Register::PmcScratch20);
    let b = before(Register::PmcScratch190);
    let c = before(Register::PmcSecureScratch21);
    assert(stage.len() == 3);
    reveal_with_fuel(after, 4);
    assert((a & 0xFFF3_FFFF) | 0 == a & 0xFFF3_FFFF) by (bit_vector);
    assert((b & 0xFFFF_FFFE) | 0 == b & 0xFFFF_FFFE) by (bit_vector);
    assert((c & 0xFFFF_FFFF) | 0x10 == c | 0x10) by (bit_vector);
    assert(after_all(before, stage) =~= stored(
        stored(stored(before, Register::PmcScratch20, a & 0xFFF3_FFFF), Register::PmcScratch190, b
            & 0xFFFF_FFFE),
        Register::PmcSecureScratch21,
        c | 0x10,
    ));
}

/// The end state of the bring-up. Whatever the registers held before, a
/// complete bring-up leaves each of them holding what [`bring_up_state`]
/// says: the straps forced to 7, the clocks on their steady-state sources and
/// dividers, the oscillator drive strength set, and the scratch registers
/// locked if that stage is part of the bring-up. The diagnostic UART makes
/// no difference to any of them.
pub proof fn lemma_bring_up_end_state(config: Config, before: RegisterFile)
    ensures
        after_all(before, bring_up_program(config)) == bring_up_state(config, before),
{
    let boot = boot_reason_stage();
    let calls = seq![
        Instr::Call(DriverOp::ClockEnable(Clock::Se)),
        Instr::Call(DriverOp::FuseInit),
        Instr::Call(DriverOp::McEnable),
    ];
    let osc = oscillator_stage();
    let pins = pinmux_stage();
    let uart = uart_stage(config);
    let power = power_stages();
    let last = final_stages(config);

    // Early stages.
    let s1 = after_all(before, boot);
    lemma_boot_reason_effect(before);
    let s2 = after_all(s1, calls);
    lemma_calls_change_nothing(s1, calls, calls.len() as int);
    let s3 = after_all(s2, osc);
    lemma_oscillator_effect(s2);
    let s4 = after_all(s3, pins);
    lemma_pinmux_effect(s3);
    lemma_after_all_concat(before, boot, calls);
    lemma_after_all_concat(before, boot + calls, osc);
    lemma_after_all_concat(before, boot + calls + osc, pins);
    assert(early_stages() == boot + calls + osc + pins);
    assert(after_all(before, early_stages()) == s4);

    // The UART, the auxiliary clocks, I2C and the PMIC touch no register.
    lemma_calls_change_nothing(s4, uart, uart.len() as int);
    lemma_after_all_concat(before, early_stages(), uart);
    lemma_calls_change_nothing(s4, power, power.len() as int);
    lemma_after_all_concat(before, early_stages() + uart, power);
    assert(after_all(before, early_stages() + uart + power) == s4);

    // The scratch registers and the final clock switch.
    let switch = seq![Instr::Write { reg: Register::CarSclkBurstPolicy, value: 0x2000_3333 }];
    let scratch = if config.lock_pmc_scratch {
        pmc_scratch_stage()
    } else {
        Seq::<Instr>::empty()
    };
    assert(last == scratch + switch);
    let s5 = after_all(s4, scratch);
    if config.lock_pmc_scratch {
        lemma_scratch_effect(s4);
    }
    lemma_after_all_concat(s4, scratch, switch);
    reveal_with_fuel(after, 2);
    let s6 = after_all(s5, switch);
    assert(s6 =~= stored(s5, Register::CarSclkBurstPolicy, 0x2000_3333));
    lemma_after_all_concat(before, early_stages() + uart + power, last);
    assert(after_all(before, bring_up_program(config)) == s6);
    assert(s6 =~= bring_up_state(config, before));
}

/// The bring-up, run by the sequencer on registers that hold what is
/// written to them and with no bus fault, leaves the end state behind: the
/// accesses that the sequencer hands out, performed in the order in which
/// it hands them out, take the registers from `before` to
/// [`bring_up_state`].
pub proof fn lemma_bring_up_reaches_end_state(config: Config, before: RegisterFile)
    ensures
        ({
            let program = bring_up_program(config);
            let reads = storage_reads(before, program);
            let events = reports_of(program, reads, 0, program.len() as int);
            let actions = trace(program, issue(program, 0), events);
            performed(before, actions, actions.len() as int) == bring_up_state(config, before)
        }),
{
    lemma_run_amounts_to_program(before, bring_up_program(config));
    lemma_bring_up_end_state(config, before);
}

/// The fields of the end state, bit by bit. Whatever the registers held
/// before:
///
/// * the RCM straps, bits 10 to 12 of the strap register, are 7, bits 4 to
///   7 are what they were, and every other bit is clear;
/// * the CLK_M divisor field, bits 2 and 3 of the spare register, is 1;
/// * the LP0 oscillator drive strength, bits 1 to 6, is 7, and bit 22 is set;
/// * bit 12 of `PMC_CNTRL2` is set;
/// * bits 24 and 25 of scratch register 188 are 2;
/// * bit 30 of `PLLMB_BASE` is clear, so PLLMB is disabled;
/// * the low half of the TSC multiplier is `0x249F`;
/// * with the scratch stage, bits 18 and 19 of scratch register 20 and bit 0
///   of scratch register 190 are clear, and bit 4 of secure scratch register
///   21 is set.
///
/// In each of these registers every bit outside the named fields is what
/// it was.
pub proof fn lemma_end_state_fields(config: Config, before: RegisterFile)
    ensures
        ({
            let end = bring_up_state(config, before);
            let straps = end(Register::StrappingOptA);
            let spare = end(Register::CarSpareReg0);
            let edpd = end(Register::PmcOscEdpdOver);
            let cntrl2 = end(Register::PmcCntrl2);
            let scratch188 = end(Register::PmcScratch188);
            let pllmb = end(Register::CarPllmbBase);
            let tsc = end(Register::PmcTscMult);
            &&& (straps >> 10) & 0x7 == 7
            &&& straps & 0xF0 == before(Register::StrappingOptA) & 0xF0
            &&& straps & !0x1CF0u32 == 0
            &&& (spare >> 2) & 0x3 == 1
            &&& spare & !0xCu32 == before(Register::CarSpareReg0) & !0xCu32
            &&& (edpd >> 1) & 0x3F == 7
            &&& (edpd >> 22) & 0x1 == 1
            &&& edpd & !0x40_007Eu32 == before(Register::PmcOscEdpdOver) & !0x40_007Eu32
            &&& (cntrl2 >> 12) & 0x1 == 1
            &&& cntrl2 & !0x1000u32 == before(Register::PmcCntrl2) & !0x1000u32
            &&& (scratch188 >> 24) & 0x3 == 2
            &&& scratch188 & !0x300_0000u32 == before(Register::PmcScratch188) & !0x300_0000u32
            &&& (pllmb >> 30) & 0x1 == 0
            &&& pllmb & !0x4000_0000u32 == before(Register::CarPllmbBase) & !0x4000_0000u32
            &&& tsc & 0xFFFF == 0x249F
            &&& tsc & 0xFFFF_0000 == before(Register::PmcTscMult) & 0xFFFF_0000
            &&& config.lock_pmc_scratch ==> {
                let scratch20 = end(Register::PmcScratch20);
                let scratch190 = end(Register::PmcScratch190);
                let secure21 = end(Register::PmcSecureScratch21);
                &&& (scratch20 >> 18) & 0x3 == 0
                &&& scratch20 & !0xC_0000u32 == before(Register::PmcScratch20) & !0xC_0000u32
                &&& scratch190 & 0x1 == 0
                &&& scratch190 & !0x1u32 == before(Register::PmcScratch190) & !0x1u32
                &&& (secure21 >> 4) & 0x1 == 1
                &&& secure21 & !0x10u32 == before(Register::PmcSecureScratch21) & !0x10u32
            }
        }),
{
    let v = before(Register::StrappingOptA);
    assert((((v & 0xF0) | 0x1C00) >> 10) & 0x7 == 7) by (bit_vector);
    assert(((v & 0xF0) | 0x1C00) & 0xF0 == v & 0xF0) by (bit_vector);
    assert(((v & 0xF0) | 0x1C00) & !0x1CF0u32 == 0) by (bit_vector);
    let v = before(Register::CarSpareReg0);
    assert((((v & 0xFFFF_FFF3) | 0x4) >> 2) & 0x3 == 1) by (bit_vector);
    assert(((v & 0xFFFF_FFF3) | 0x4) & !0xCu32 == v & !0xCu32) by (bit_vector);
    let v = before(Register::PmcOscEdpdOver);
    assert((((v & 0xFFBF_FF81) | 0x40_000E) >> 1) & 0x3F == 7) by (bit_vector);
    assert((((v & 0xFFBF_FF81) | 0x40_000E) >> 22) & 0x1 == 1) by (bit_vector);
    assert(((v & 0xFFBF_FF81) | 0x40_000E) & !0x40_007Eu32 == v & !0x40_007Eu32) by (bit_vector);
    let v = before(Register::PmcCntrl2);
    assert(((v | 0x1000) >> 12) & 0x1 == 1) by (bit_vector);
    assert((v | 0x1000) & !0x1000u32 == v & !0x1000u32) by (bit_vector);
    let v = before(Register::PmcScratch188);
    assert((((v & 0xFCFF_FFFF) | 0x200_0000) >> 24) & 0x3 == 2) by (bit_vector);
    assert(((v & 0xFCFF_FFFF) | 0x200_0000) & !0x300_0000u32 == v & !0x300_0000u32)
        by (bit_vector);
    let v = before(Register::CarPllmbBase);
    assert(((v & 0xBFFF_FFFF) >> 30) & 0x1 == 0) by (bit_vector);
    assert((v & 0xBFFF_FFFF) & !0x4000_0000u32 == v & !0x4000_0000u32) by (bit_vector);
    let v = before(Register::PmcTscMult);
    assert(((v & 0xFFFF_0000) | 0x249F) & 0xFFFF == 0x249F) by (bit_vector);
    assert(((v & 0xFFFF_0000) | 0x249F) & 0xFFFF_0000 == v & 0xFFFF_0000) by (bit_vector);
    let v = before(Register::PmcScratch20);
    assert(((v & 0xFFF3_FFFF) >> 18) & 0x3 == 0) by (bit_vector);
    assert((v & 0xFFF3_FFFF) & !0xC_0000u32 == v & !0xC_0000u32) by (bit_vector);
    let v = before(Register::PmcScratch190);
    assert((v & 0xFFFF_FFFE) & 0x1 == 0) by (bit_vector);
    assert((v & 0xFFFF_FFFE) & !0x1u32 == v & !0x1u32) by (bit_vector);
    let v = before(Register::PmcSecureScratch21);
    assert(((v | 0x10) >> 4) & 0x1 == 1) by (bit_vector);
    assert((v | 0x10) & !0x10u32 == v & !0x10u32) by (bit_vector);
}

} // verus!
