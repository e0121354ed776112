//! Hardware initialization for the NVIDIA Tegra X1: the bring-up program.
//!
//! The program is a fixed, ordered list of instructions. Both the order and
//! every word in it are calibrated against the hardware; nothing here is
//! computed from the environment except the two switches of [`Config`].

use crate::hal::{
    BusWrite, Clock, DriverOp, Gpio, GpioMode, GpioPort, I2cBus, I2cFault, PinConfig, PinFunction,
    PinGroup, PinIo, PinIoHv, PinLock, PinOd, PinPull, PinTristate, Register,
};
use crate::sequencer::{issue, Action, Error, Event, Instr, Sequencer};
use crate::trace::{
    accesses_of, lemma_bus_fault_aborts, lemma_fault_free_run, reports_of, run, trace,
};
use vstd::prelude::*;

verus! {

/// I2C address of the MAX77620 power management IC.
pub const MAX77620_PWR: u32 = 0x3C;

/// Baud rate of the diagnostic UART.
pub const BAUD_115200: u32 = 115_200;

/// The switches of a bring-up.
#[derive(Clone, Copy, Debug, PartialEq, Eq, Structural)]
pub struct Config {
    /// Bring up the diagnostic UART.
    pub debug_uart: bool,
    /// Configure and lock the PMC scratch registers that record the security
    /// posture. Later product revisions leave this stage out.
    pub lock_pmc_scratch: bool,
}

/// The GPIO table: six pins, all inputs, applied in this order.
pub open spec fn gpio_table() -> Seq<(Gpio, GpioMode)> {
    seq![
        (Gpio { port: GpioPort::D, pin: 1 }, GpioMode::Input),
        (Gpio { port: GpioPort::E, pin: 6 }, GpioMode::Input),
        (Gpio { port: GpioPort::G, pin: 0 }, GpioMode::Input),
        (Gpio { port: GpioPort::H, pin: 6 }, GpioMode::Input),
        (Gpio { port: GpioPort::X, pin: 6 }, GpioMode::Input),
        (Gpio { port: GpioPort::X, pin: 7 }, GpioMode::Input),
    ]
}

/// The pin-function table: twelve pin groups, applied in this order.
pub open spec fn pin_table() -> Seq<PinConfig> {
    seq![
        PinConfig {
            group: PinGroup::Uart1TxPu0,
            function: PinFunction::Uarta,
            pull: PinPull::Off,
            tristate: PinTristate::Passthrough,
            io: PinIo::Output,
            lock: PinLock::Default,
            od: PinOd::Disable,
            io_hv: PinIoHv::Default,
        },
        PinConfig {
            group: PinGroup::Uart1RxPu1,
            function: PinFunction::Uarta,
            pull: PinPull::Up,
            tristate: PinTristate::Passthrough,
            io: PinIo::Input,
            lock: PinLock::Default,
            od: PinOd::Disable,
            io_hv: PinIoHv::Default,
        },
        PinConfig {
            group: PinGroup::Uart1RtsPu2,
            function: PinFunction::Uarta,
            pull: PinPull::Off,
            tristate: PinTristate::Passthrough,
            io: PinIo::Output,
            lock: PinLock::Default,
            od: PinOd::Disable,
            io_hv: PinIoHv::Default,
        },
        PinConfig {
            group: PinGroup::Uart1CtsPu3,
            function: PinFunction::Uarta,
            pull: PinPull::Down,
            tristate: PinTristate::Passthrough,
            io: PinIo::Input,
            lock: PinLock::Default,
            od: PinOd::Disable,
            io_hv: PinIoHv::Default,
        },
        PinConfig {
            group: PinGroup::Uart2TxPg0,
            function: PinFunction::Uartb,
            pull: PinPull::Off,
            tristate: PinTristate::Passthrough,
            io: PinIo::Output,
            lock: PinLock::Default,
            od: PinOd::Disable,
            io_hv: PinIoHv::Default,
        },
        PinConfig {
            group: PinGroup::Uart3TxPd1,
            function: PinFunction::Uartc,
            pull: PinPull::Off,
            tristate: PinTristate::Passthrough,
            io: PinIo::Output,
            lock: PinLock::Default,
            od: PinOd::Disable,
            io_hv: PinIoHv::Default,
        },
        PinConfig {
            group: PinGroup::Pe6,
            function: PinFunction::Default,
            pull: PinPull::Off,
            tristate: PinTristate::Passthrough,
            io: PinIo::Input,
            lock: PinLock::Default,
            od: PinOd::Disable,
            io_hv: PinIoHv::Default,
        },
        PinConfig {
            group: PinGroup::Ph6,
            function: PinFunction::Default,
            pull: PinPull::Off,
            tristate: PinTristate::Passthrough,
            io: PinIo::Input,
            lock: PinLock::Default,
            od: PinOd::Disable,
            io_hv: PinIoHv::Default,
        },
        PinConfig {
            group: PinGroup::Gen1I2cSclPj1,
            function: PinFunction::I2c1,
            pull: PinPull::Off,
            tristate: PinTristate::Passthrough,
            io: PinIo::Input,
            lock: PinLock::Default,
            od: PinOd::Disable,
            io_hv: PinIoHv::Normal,
        },
        PinConfig {
            group: PinGroup::Gen1I2cSdaPj0,
            function: PinFunction::I2c1,
            pull: PinPull::Off,
            tristate: PinTristate::Passthrough,
            io: PinIo::Input,
            lock: PinLock::Default,
            od: PinOd::Disable,
            io_hv: PinIoHv::Normal,
        },
        PinConfig {
            group: PinGroup::PwrI2cSclPy3,
            function: PinFunction::I2cPmu,
            pull: PinPull::Off,
            tristate: PinTristate::Passthrough,
            io: PinIo::Input,
            lock: PinLock::Default,
            od: PinOd::Disable,
            io_hv: PinIoHv::Normal,
        },
        PinConfig {
            group: PinGroup::PwrI2cSdaPy4,
            function: PinFunction::I2cPmu,
            pull: PinPull::Off,
            tristate: PinTristate::Passthrough,
            io: PinIo::Input,
            lock: PinLock::Default,
            od: PinOd::Disable,
            io_hv: PinIoHv::Normal,
        },
    ]
}

/// The PMIC table: sub-register and byte of each write, in the order in
/// which the rails have to come up. The last entry sets the SD0 voltage.
pub open spec fn pmic_table() -> Seq<(u8, u8)> {
    seq![
        (0x04u8, 0x40u8),
        (0x41u8, 0x60u8),
        (0x43u8, 0x38u8),
        (0x44u8, 0x3Au8),
        (0x45u8, 0x38u8),
        (0x4Au8, 0x0Fu8),
        (0x4Eu8, 0xC7u8),
        (0x4Fu8, 0x4Fu8),
        (0x50u8, 0x29u8),
        (0x52u8, 0x1Bu8),
        (0x56u8, 0x22u8),
        (0x16u8, 0x2Au8),
    ]
}

/// The instruction that writes one entry of the PMIC table.
pub open spec fn pmic_write(entry: (u8, u8)) -> Instr {
    Instr::Transfer(
        BusWrite { bus: I2cBus::C5, device: MAX77620_PWR, register: entry.0, value: entry.1 },
    )
}

/// Clears the boot reason and forces the RCM straps to 7.
pub open spec fn boot_reason_stage() -> Seq<Instr> {
    seq![
        Instr::Write { reg: Register::PmcScratch200, value: 0 },
        Instr::Write { reg: Register::PmcRstStatus, value: 0 },
        Instr::Modify { reg: Register::StrappingOptA, keep: 0xF0, set: 0 },
        Instr::Modify { reg: Register::StrappingOptA, keep: 0xFFFF_E3FF, set: 0x1C00 },
    ]
}

/// Counters, CLK_M, BPMP and the other clocks for a 38.4 MHz oscillator.
pub open spec fn oscillator_stage() -> Seq<Instr> {
    seq![
        Instr::Modify { reg: Register::CarSpareReg0, keep: 0xFFFF_FFF3, set: 0x4 },
        Instr::Write { reg: Register::Sysctr0Cntfid0, value: 19_200_000 },
        Instr::Write { reg: Register::TimerusUsecCfg, value: 0x45F },
        Instr::Write { reg: Register::CarOscCtrl, value: 0x5000_0071 },
        Instr::Modify { reg: Register::PmcOscEdpdOver, keep: 0xFFFF_FF81, set: 0xE },
        Instr::Modify { reg: Register::PmcOscEdpdOver, keep: 0xFFBF_FFFF, set: 0x40_0000 },
        Instr::Modify { reg: Register::PmcCntrl2, keep: 0xFFFF_EFFF, set: 0x1000 },
        Instr::Modify { reg: Register::PmcScratch188, keep: 0xFCFF_FFFF, set: 0x200_0000 },
        Instr::Write { reg: Register::CarClkSystemRate, value: 0x10 },
        Instr::Modify { reg: Register::CarPllmbBase, keep: 0xBFFF_FFFF, set: 0 },
        Instr::Modify { reg: Register::PmcTscMult, keep: 0xFFFF_0000, set: 0x249F },
        Instr::Write { reg: Register::CarClkSourceSys, value: 0 },
        Instr::Write { reg: Register::CarSclkBurstPolicy, value: 0x2000_4444 },
        Instr::Write { reg: Register::CarSuperSclkDivider, value: 0x8000_0000 },
        Instr::Write { reg: Register::CarClkSystemRate, value: 0x2 },
    ]
}

/// Clamps tristated inputs, then applies the GPIO table and the pin-function
/// table, each entry once and in table order.
pub open spec fn pinmux_stage() -> Seq<Instr> {
    seq![Instr::Write { reg: Register::PinmuxGlobal, value: 0 }] + Seq::new(
        gpio_table().len(),
        |i: int| Instr::Call(DriverOp::GpioConfig(gpio_table()[i].0, gpio_table()[i].1)),
    ) + Seq::new(
        pin_table().len(),
        |i: int| Instr::Call(DriverOp::PinmuxConfigure(pin_table()[i])),
    )
}

/// Writes the PMIC table over the power-management bus, entry by entry.
pub open spec fn pmic_stage() -> Seq<Instr> {
    Seq::new(pmic_table().len(), |i: int| pmic_write(pmic_table()[i]))
}

/// Records the security posture in the PMC scratch registers.
pub open spec fn pmc_scratch_stage() -> Seq<Instr> {
    seq![
        Instr::Modify { reg: Register::PmcScratch20, keep: 0xFFF3_FFFF, set: 0 },
        Instr::Modify { reg: Register::PmcScratch190, keep: 0xFFFF_FFFE, set: 0 },
        Instr::Modify { reg: Register::PmcSecureScratch21, keep: 0xFFFF_FFFF, set: 0x10 },
    ]
}

/// What comes before the optional UART: boot reason, Security Engine clock,
/// fuses, memory controllers, oscillators, pins.
pub open spec fn early_stages() -> Seq<Instr> {
    boot_reason_stage() + seq![
        Instr::Call(DriverOp::ClockEnable(Clock::Se)),
        Instr::Call(DriverOp::FuseInit),
        Instr::Call(DriverOp::McEnable),
    ] + oscillator_stage() + pinmux_stage()
}

/// The optional stage that brings up the diagnostic UART.
pub open spec fn uart_stage(config: Config) -> Seq<Instr> {
    if config.debug_uart {
        seq![Instr::Call(DriverOp::UartInit(BAUD_115200))]
    } else {
        Seq::empty()
    }
}

/// Auxiliary clocks, the two I2C controllers and the PMIC.
pub open spec fn power_stages() -> Seq<Instr> {
    seq![
        Instr::Call(DriverOp::ClockEnable(Clock::ClDvfs)),
        Instr::Call(DriverOp::ClockEnable(Clock::Tzram)),
        Instr::Call(DriverOp::I2cInit(I2cBus::C1)),
        Instr::Call(DriverOp::I2cInit(I2cBus::C5)),
    ] + pmic_stage()
}

/// What comes after the PMIC: the optional scratch-register stage and the
/// switch of SCLK to its steady-state source.
pub open spec fn final_stages(config: Config) -> Seq<Instr> {
    (if config.lock_pmc_scratch {
        pmc_scratch_stage()
    } else {
        Seq::empty()
    }) + seq![Instr::Write { reg: Register::CarSclkBurstPolicy, value: 0x2000_3333 }]
}

/// The whole bring-up program, stage after stage.
pub open spec fn bring_up_program(config: Config) -> Seq<Instr> {
    early_stages() + uart_stage(config) + power_stages() + final_stages(config)
}

/// The GPIO table.
pub fn gpio_config() -> (table: Vec<(Gpio, GpioMode)>)
    ensures
        table@ == gpio_table(),
{
    let table = vec![
        (Gpio { port: GpioPort::D, pin: 1 }, GpioMode::Input),
        (Gpio { port: GpioPort::E, pin: 6 }, GpioMode::Input),
        (Gpio { port: GpioPort::G, pin: 0 }, GpioMode::Input),
        (Gpio { port: GpioPort::H, pin: 6 }, GpioMode::Input),
        (Gpio { port: GpioPort::X, pin: 6 }, GpioMode::Input),
        (Gpio { port: GpioPort::X, pin: 7 }, GpioMode::Input),
    ];
    assert(table@ =~= gpio_table());
    table
}

/// A pin group passed through to its pad, unlocked, not open-drain: what
/// every entry of the pin-function table has in common.
fn pin(group: PinGroup, function: PinFunction, pull: PinPull, io: PinIo, io_hv: PinIoHv) -> (entry:
    PinConfig)
    ensures
        entry == (PinConfig {
            group,
            function,
            pull,
            tristate: PinTristate::Passthrough,
            io,
            lock: PinLock::Default,
            od: PinOd::Disable,
            io_hv,
        }),
{
    PinConfig {
        group,
        function,
        pull,
        tristate: PinTristate::Passthrough,
        io,
        lock: PinLock::Default,
        od: PinOd::Disable,
        io_hv,
    }
}

/// The pin-function table.
pub fn pin_config() -> (table: Vec<PinConfig>)
    ensures
        table@ == pin_table(),
{
    let uart_a = PinFunction::Uarta;
    let off = PinPull::Off;
    let (output, input) = (PinIo::Output, PinIo::Input);
    let (default, normal) = (PinIoHv::Default, PinIoHv::Normal);
    let table = vec![
        pin(PinGroup::Uart1TxPu0, uart_a, off, output, default),
        pin(PinGroup::Uart1RxPu1, uart_a, PinPull::Up, input, default),
        pin(PinGroup::Uart1RtsPu2, uart_a, off, output, default),
        pin(PinGroup::Uart1CtsPu3, uart_a, PinPull::Down, input, default),
        pin(PinGroup::Uart2TxPg0, PinFunction::Uartb, off, output, default),
        pin(PinGroup::Uart3TxPd1, PinFunction::Uartc, off, output, default),
        pin(PinGroup::Pe6, PinFunction::Default, off, input, default),
        pin(PinGroup::Ph6, PinFunction::Default, off, input, default),
        pin(PinGroup::Gen1I2cSclPj1, PinFunction::I2c1, off, input, normal),
        pin(PinGroup::Gen1I2cSdaPj0, PinFunction::I2c1, off, input, normal),
        pin(PinGroup::PwrI2cSclPy3, PinFunction::I2cPmu, off, input, normal),
        pin(PinGroup::PwrI2cSdaPy4, PinFunction::I2cPmu, off, input, normal),
    ];
    assert(table@ =~= pin_table());
    table
}

/// The PMIC table.
pub fn pmic_config() -> (table: Vec<(u8, u8)>)
    ensures
        table@ == pmic_table(),
{
    let table = vec![
        (0x04u8, 0x40u8),
        (0x41u8, 0x60u8),
        (0x43u8, 0x38u8),
        (0x44u8, 0x3Au8),
        (0x45u8, 0x38u8),
        (0x4Au8, 0x0Fu8),
        (0x4Eu8, 0xC7u8),
        (0x4Fu8, 0x4Fu8),
        (0x50u8, 0x29u8),
        (0x52u8, 0x1Bu8),
        (0x56u8, 0x22u8),
        (0x16u8, 0x2Au8),
    ];
    assert(table@ =~= pmic_table());
    table
}

/// The oscillator and clock stage.
pub fn config_oscillators() -> (stage: Vec<Instr>)
    ensures
        stage@ == oscillator_stage(),
{
    let stage = vec![
        // Set CLK_M_DIVISOR to 2.
        Instr::Modify { reg: Register::CarSpareReg0, keep: 0xFFFF_FFF3, set: 0x4 },
        // Set counter frequency.
        Instr::Write { reg: Register::Sysctr0Cntfid0, value: 19_200_000 },
        // Set 19.2MHz clk_m.
        Instr::Write { reg: Register::TimerusUsecCfg, value: 0x45F },
        // Set OSC to 38.4MHz and drive strength.
        Instr::Write { reg: Register::CarOscCtrl, value: 0x5000_0071 },
        // Set LP0 OSC drive strength.
        Instr::Modify { reg: Register::PmcOscEdpdOver, keep: 0xFFFF_FF81, set: 0xE },
        Instr::Modify { reg: Register::PmcOscEdpdOver, keep: 0xFFBF_FFFF, set: 0x40_0000 },
        Instr::Modify { reg: Register::PmcCntrl2, keep: 0xFFFF_EFFF, set: 0x1000 },
        // LP0 EMC2TMC_CFG_XM2COMP_PU_VREF_SEL_RANGE.
        Instr::Modify { reg: Register::PmcScratch188, keep: 0xFCFF_FFFF, set: 0x200_0000 },
        // Set HCLK div to 2 and PCLK div to 1.
        Instr::Write { reg: Register::CarClkSystemRate, value: 0x10 },
        // PLLMB disable.
        Instr::Modify { reg: Register::CarPllmbBase, keep: 0xBFFF_FFFF, set: 0 },
        // 0x249F = 19200000 * (16 / 32.768 kHz)
        Instr::Modify { reg: Register::PmcTscMult, keep: 0xFFFF_0000, set: 0x249F },
        // Set BPMP/SCLK div to 1.
        Instr::Write { reg: Register::CarClkSourceSys, value: 0 },
        // Set BPMP/SCLK source to Run and PLLP_OUT2 (204MHz).
        Instr::Write { reg: Register::CarSclkBurstPolicy, value: 0x2000_4444 },
        // Enable SUPER_SDIV to 1.
        Instr::Write { reg: Register::CarSuperSclkDivider, value: 0x8000_0000 },
        // Set HCLK div to 1 and PCLK div to 3.
        Instr::Write { reg: Register::CarClkSystemRate, value: 0x2 },
    ];
    assert(stage@ =~= oscillator_stage());
    stage
}

/// The pin stage: input clamping, then every GPIO, then every pin group.
pub fn config_pinmux() -> (stage: Vec<Instr>)
    ensures
        stage@ == pinmux_stage(),
{
    // Clamp inputs when tristated.
    let mut stage = vec![Instr::Write { reg: Register::PinmuxGlobal, value: 0 }];

    // Configure the GPIOs.
    let gpios = gpio_config();
    let mut i: usize = 0;
    while i < gpios.len()
        invariant
            i <= gpios.len(),
            gpios@ == gpio_table(),
            stage@.len() == 1 + i,
            stage@[0] == (Instr::Write { reg: Register::PinmuxGlobal, value: 0 }),
            forall|k: int|
                0 <= k < i ==> stage@[1 + k] == Instr::Call(
                    DriverOp::GpioConfig(gpio_table()[k].0, gpio_table()[k].1),
                ),
        decreases gpios.len() - i,
    {
        let entry = gpios[i];
        stage.push(Instr::Call(DriverOp::GpioConfig(entry.0, entry.1)));
        i = i + 1;
    }

    // Configure the pin multiplexing.
    let pins = pin_config();
    let mut j: usize = 0;
    while j < pins.len()
        invariant
            j <= pins.len(),
            pins@ == pin_table(),
            gpios@ == gpio_table(),
            stage@.len() == 1 + gpios.len() + j,
            stage@[0] == (Instr::Write { reg: Register::PinmuxGlobal, value: 0 }),
            forall|k: int|
                0 <= k < gpios.len() ==> stage@[1 + k] == Instr::Call(
                    DriverOp::GpioConfig(gpio_table()[k].0, gpio_table()[k].1),
                ),
            forall|k: int|
                0 <= k < j ==> stage@[1 + gpios.len() + k] == Instr::Call(
                    DriverOp::PinmuxConfigure(pin_table()[k]),
                ),
        decreases pins.len() - j,
    {
        stage.push(Instr::Call(DriverOp::PinmuxConfigure(pins[j])));
        j = j + 1;
    }
    assert(stage@ =~= pinmux_stage());
    stage
}

/// The PMIC stage: one bus write per table entry.
pub fn config_pmic() -> (stage: Vec<Instr>)
    ensures
        stage@ == pmic_stage(),
{
    let table = pmic_config();
    let mut stage: Vec<Instr> = Vec::new();
    let mut i: usize = 0;
    while i < table.len()
        invariant
            i <= table.len(),
            table@ == pmic_table(),
            stage@.len() == i,
            forall|k: int| 0 <= k < i ==> stage@[k] == pmic_write(pmic_table()[k]),
        decreases table.len() - i,
    {
        let entry = table[i];
        stage.push(
            Instr::Transfer(
                BusWrite {
                    bus: I2cBus::C5,
                    device: MAX77620_PWR,
                    register: entry.0,
                    value: entry.1,
                },
            ),
        );
        i = i + 1;
    }
    assert(stage@ =~= pmic_stage());
    stage
}

/// The scratch-register stage.
pub fn config_pmc_scratch() -> (stage: Vec<Instr>)
    ensures
        stage@ == pmc_scratch_stage(),
{
    let stage = vec![
        // Unset Debug console from Customer Option.
        Instr::Modify { reg: Register::PmcScratch20, keep: 0xFFF3_FFFF, set: 0 },
        // Unset DATA_DQ_E_IVREF EMC_PMACRO_DATA_PAD_TX_CTRL.
        Instr::Modify { reg: Register::PmcScratch190, keep: 0xFFFF_FFFE, set: 0 },
        // Disable the fuse private key.
        Instr::Modify { reg: Register::PmcSecureScratch21, keep: 0xFFFF_FFFF, set: 0x10 },
    ];
    assert(stage@ =~= pmc_scratch_stage());
    stage
}

/// Starts the hardware initialization of the SoC: a run of the bring-up
/// program for `config`, with its first access pending.
pub fn init_hardware(config: Config) -> (run: Sequencer)
    ensures
        run@.program == bring_up_program(config),
        run@.cursor == issue(bring_up_program(config), 0),
{
    // Clear the boot reason to avoid problems later on.
    let mut program = vec![
        Instr::Write { reg: Register::PmcScratch200, value: 0 },
        Instr::Write { reg: Register::PmcRstStatus, value: 0 },
        Instr::Modify { reg: Register::StrappingOptA, keep: 0xF0, set: 0 },
        Instr::Modify { reg: Register::StrappingOptA, keep: 0xFFFF_E3FF, set: 0x1C00 },
    ];
    assert(program@ =~= boot_reason_stage());

    // Reboot the Security Engine.
    program.push(Instr::Call(DriverOp::ClockEnable(Clock::Se)));

    // Initialize the fuse driver by making the registers visible, disabling
    // the private key and disabling programming.
    program.push(Instr::Call(DriverOp::FuseInit));

    // Enable clocks to Memory Controllers and disable AHB redirect.
    program.push(Instr::Call(DriverOp::McEnable));

    // Initialize counters, CLKM, BPMP and other clocks based on 38.4MHz oscillator.
    let mut oscillators = config_oscillators();
    program.append(&mut oscillators);

    // Initialize the SoC pin configurations.
    let mut pinmux = config_pinmux();
    program.append(&mut pinmux);
    assert(program@ =~= early_stages());

    // Initialize UART E for debugging, if desired.
    if config.debug_uart {
        program.push(Instr::Call(DriverOp::UartInit(BAUD_115200)));
    }
    assert(program@ =~= early_stages() + uart_stage(config));

    // Reboot the Dynamic Voltage and Frequency Scaling device.
    program.push(Instr::Call(DriverOp::ClockEnable(Clock::ClDvfs)));

    // Reboot the TZRAM device.
    program.push(Instr::Call(DriverOp::ClockEnable(Clock::Tzram)));

    // Initialize the I2C1 and I2CPWR devices.
    program.push(Instr::Call(DriverOp::I2cInit(I2cBus::C1)));
    program.push(Instr::Call(DriverOp::I2cInit(I2cBus::C5)));

    // Configure the PMIC.
    let mut pmic = config_pmic();
    program.append(&mut pmic);
    assert(program@ =~= early_stages() + uart_stage(config) + power_stages());

    // Configure and lock PMC scratch registers.
    if config.lock_pmc_scratch {
        let mut scratch = config_pmc_scratch();
        program.append(&mut scratch);
    }

    // Set SCLK to PLLP_OUT (408MHz).
    program.push(Instr::Write { reg: Register::CarSclkBurstPolicy, value: 0x2000_3333 });
    assert(program@ =~= bring_up_program(config));

    Sequencer::new(program)
}

/// The pin stage applies each table exactly once and in table order: after
/// the clamp come the six GPIOs, then the twelve pin groups, and no pin group
/// is configured twice.
pub proof fn lemma_pinmux_stage_layout()
    ensures
        gpio_table().len() == 6,
        pin_table().len() == 12,
        pinmux_stage().len() == 19,
        pinmux_stage()[0] == (Instr::Write { reg: Register::PinmuxGlobal, value: 0 }),
        forall|i: int|
            0 <= i < 6 ==> #[trigger] pinmux_stage()[1 + i] == Instr::Call(
                DriverOp::GpioConfig(gpio_table()[i].0, gpio_table()[i].1),
            ),
        forall|i: int|
            0 <= i < 12 ==> #[trigger] pinmux_stage()[7 + i] == Instr::Call(
                DriverOp::PinmuxConfigure(pin_table()[i]),
            ),
        forall|i: int, j: int|
            0 <= i < j < 12 ==> (#[trigger] pin_table()[i]).group != (#[trigger] pin_table()[
                j
            ]).group,
{
    let pins = pin_table();
    assert(pins[0].group == PinGroup::Uart1TxPu0);
    assert(pins[1].group == PinGroup::Uart1RxPu1);
    assert(pins[2].group == PinGroup::Uart1RtsPu2);
    assert(pins[3].group == PinGroup::Uart1CtsPu3);
    assert(pins[4].group == PinGroup::Uart2TxPg0);
    assert(pins[5].group == PinGroup::Uart3TxPd1);
    assert(pins[6].group == PinGroup::Pe6);
    assert(pins[7].group == PinGroup::Ph6);
    assert(pins[8].group == PinGroup::Gen1I2cSclPj1);
    assert(pins[9].group == PinGroup::Gen1I2cSdaPj0);
    assert(pins[10].group == PinGroup::PwrI2cSclPy3);
    assert(pins[11].group == PinGroup::PwrI2cSdaPy4);
}

/// Stage order. The program holds, in this order and with nothing between
/// them: the boot-reason stage, the Security Engine clock, the fuse
/// initialization, the memory controllers, the oscillator stage, the pin
/// stage, the UART if it is wanted, the two auxiliary clocks, the two I2C
/// controllers, the PMIC stage, the scratch-register stage if it is wanted,
/// and the final switch of the system clock.
pub proof fn lemma_bring_up_layout(config: Config)
    ensures
        ({
            let program = bring_up_program(config);
            let uart: int = if config.debug_uart {
                1
            } else {
                0
            };
            let scratch: int = if config.lock_pmc_scratch {
                3
            } else {
                0
            };
            &&& program.len() == 58 + uart + scratch
            &&& program.subrange(0, 4) == boot_reason_stage()
            &&& program[4] == Instr::Call(DriverOp::ClockEnable(Clock::Se))
            &&& program[5] == Instr::Call(DriverOp::FuseInit)
            &&& program[6] == Instr::Call(DriverOp::McEnable)
            &&& program.subrange(7, 22) == oscillator_stage()
            &&& program.subrange(22, 41) == pinmux_stage()
            &&& config.debug_uart ==> program[41] == Instr::Call(DriverOp::UartInit(BAUD_115200))
            &&& program[41 + uart] == Instr::Call(DriverOp::ClockEnable(Clock::ClDvfs))
            &&& program[42 + uart] == Instr::Call(DriverOp::ClockEnable(Clock::Tzram))
            &&& program[43 + uart] == Instr::Call(DriverOp::I2cInit(I2cBus::C1))
            &&& program[44 + uart] == Instr::Call(DriverOp::I2cInit(I2cBus::C5))
            &&& program.subrange(45 + uart, 57 + uart) == pmic_stage()
            &&& config.lock_pmc_scratch ==> program.subrange(57 + uart, 60 + uart)
                == pmc_scratch_stage()
            &&& program[57 + uart + scratch] == (Instr::Write {
                reg: Register::CarSclkBurstPolicy,
                value: 0x2000_3333,
            })
        }),
{
    let program = bring_up_program(config);
    let uart: int = if config.debug_uart {
        1
    } else {
        0
    };
    let scratch: int = if config.lock_pmc_scratch {
        3
    } else {
        0
    };
    lemma_pinmux_stage_layout();
    assert(boot_reason_stage().len() == 4);
    assert(oscillator_stage().len() == 15);
    assert(pmic_table().len() == 12);
    assert(pmic_stage().len() == 12);
    assert(early_stages().len() == 41);
    assert(uart_stage(config).len() == uart);
    assert(power_stages().len() == 16);
    assert(final_stages(config).len() == scratch + 1);
    assert(program.subrange(0, 4) =~= boot_reason_stage());
    assert(program.subrange(7, 22) =~= oscillator_stage());
    assert(program.subrange(22, 41) =~= pinmux_stage());
    assert(program.subrange(45 + uart, 57 + uart) =~= pmic_stage());
    if config.lock_pmc_scratch {
        assert(program.subrange(57 + uart, 60 + uart) =~= pmc_scratch_stage());
    }
}

/// The UART stage stands alone. A bring-up with the diagnostic UART is the
/// bring-up without it plus the one instruction that initializes the UART:
/// every other instruction is the same and in the same place relative to
/// the others.
pub proof fn lemma_uart_stage_is_separable(config: Config)
    requires
        config.debug_uart,
    ensures
        bring_up_program(config).remove(41) == bring_up_program(
            Config { debug_uart: false, ..config },
        ),
        bring_up_program(config)[41] == Instr::Call(DriverOp::UartInit(BAUD_115200)),
{
    let with_uart = bring_up_program(config);
    let without = bring_up_program(Config { debug_uart: false, ..config });
    lemma_bring_up_layout(config);
    lemma_bring_up_layout(Config { debug_uart: false, ..config });
    assert(early_stages().len() == 41);
    assert(with_uart.remove(41) =~= without);
}

/// A failed PMIC write ends the bring-up. If everything before the `k`-th
/// write of the PMIC table completes and that write reports a fault, the
/// run fails with the PMIC's address, the sub-register of that table entry
/// and the fault. What was handed out is what precedes the write in program
/// order and the write itself; afterwards nothing but the abort is handed
/// out, so no later PMIC write, no scratch-register access and no clock
/// switch ever happens.
pub proof fn lemma_pmic_fault_stops_bring_up(
    config: Config,
    reads: Seq<u32>,
    k: int,
    fault: I2cFault,
    later: Seq<Event>,
)
    requires
        0 <= k < 12,
    ensures
        ({
            let program = bring_up_program(config);
            let at = 45 + (if config.debug_uart {
                1int
            } else {
                0int
            }) + k;
            let error = Error::I2c {
                device: MAX77620_PWR,
                register: pmic_table()[k].0,
                fault,
            };
            let events = reports_of(program, reads, 0, at) + seq![Event::Fault(fault)] + later;
            &&& program[at] == pmic_write(pmic_table()[k])
            &&& run(program, issue(program, 0), events).pending == Action::Abort(error)
            &&& trace(program, issue(program, 0), events) == accesses_of(program, reads, 0, at)
                + seq![Action::Transfer(program[at]->Transfer_0)] + Seq::new(
                later.len(),
                |i: int| Action::Abort(error),
            )
        }),
{
    let program = bring_up_program(config);
    let uart: int = if config.debug_uart {
        1
    } else {
        0
    };
    let at = 45 + uart + k;
    lemma_bring_up_layout(config);
    assert(program[at] == program.subrange(45 + uart, 57 + uart)[k]);
    assert(pmic_stage()[k] == pmic_write(pmic_table()[k]));
    lemma_bus_fault_aborts(program, reads, at, fault, later);
}

/// A bring-up on which nothing fails hands out the accesses of its program
/// from the first instruction to the last, in program order, and then
/// finishes.
pub proof fn lemma_bring_up_in_order(config: Config, reads: Seq<u32>)
    ensures
        ({
            let program = bring_up_program(config);
            let events = reports_of(program, reads, 0, program.len() as int);
            &&& run(program, issue(program, 0), events).pending == Action::Finish
            &&& trace(program, issue(program, 0), events) == accesses_of(
                program,
                reads,
                0,
                program.len() as int,
            )
        }),
{
    let program = bring_up_program(config);
    lemma_fault_free_run(program, reads, 0, program.len() as int);
}

} // verus!
