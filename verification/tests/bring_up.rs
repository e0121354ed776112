use tegra_boot::hal::{
    BusWrite, Clock, DriverOp, Gpio, GpioMode, GpioPort, I2cBus, I2cFault, PinConfig, PinFunction,
    PinGroup, PinIo, PinIoHv, PinLock, PinOd, PinPull, PinTristate, Register,
};
use tegra_boot::init::{
    config_oscillators, config_pinmux, config_pmc_scratch, config_pmic, gpio_config,
    init_hardware, pin_config, pmic_config, Config, BAUD_115200, MAX77620_PWR,
};
use tegra_boot::sequencer::{Action, Error, Event, Instr, Sequencer};

const RELEASE: Config = Config { debug_uart: false, lock_pmc_scratch: true };

/// A register file and an I2C bus that record what is done to them.
struct MockHardware {
    registers: Vec<(Register, u32)>,
    reset_value: u32,
    failing: Option<(u8, I2cFault)>,
    trace: Vec<Action>,
}

impl MockHardware {
    fn new(reset_value: u32) -> MockHardware {
        MockHardware { registers: Vec::new(), reset_value, failing: None, trace: Vec::new() }
    }

    fn failing_at(register: u8, fault: I2cFault) -> MockHardware {
        let mut hardware = MockHardware::new(0);
        hardware.failing = Some((register, fault));
        hardware
    }

    fn read(&self, reg: Register) -> u32 {
        for (r, value) in self.registers.iter().rev() {
            if *r == reg {
                return *value;
            }
        }
        self.reset_value
    }

    fn perform(&mut self, action: Action) -> Event {
        self.trace.push(action);
        match action {
            Action::Read(reg) => Event::Value(self.read(reg)),
            Action::Write(reg, value) => {
                self.registers.push((reg, value));
                Event::Done
            }
            Action::Driver(_) => Event::Done,
            Action::Transfer(write) => match self.failing {
                Some((register, fault)) if register == write.register => Event::Fault(fault),
                _ => Event::Done,
            },
            Action::Finish | Action::Abort(_) => unreachable!(),
        }
    }
}

/// Runs the sequencer against the mock until it stops.
fn drive(run: &mut Sequencer, hardware: &mut MockHardware) -> Result<(), Error> {
    for _ in 0..10_000 {
        match run.action() {
            Action::Finish => return Ok(()),
            Action::Abort(error) => return Err(error),
            action => {
                let event = hardware.perform(action);
                run.advance(event);
            }
        }
    }
    panic!("the run did not stop");
}

fn write(reg: Register, value: u32) -> Action {
    Action::Write(reg, value)
}

fn call(op: DriverOp) -> Action {
    Action::Driver(op)
}

fn pmic(register: u8, value: u8) -> Action {
    Action::Transfer(BusWrite { bus: I2cBus::C5, device: 0x3C, register, value })
}

fn gpio(port: GpioPort, pin: u8) -> Action {
    call(DriverOp::GpioConfig(Gpio { port, pin }, GpioMode::Input))
}

fn pinmux(
    group: PinGroup,
    function: PinFunction,
    pull: PinPull,
    io: PinIo,
    io_hv: PinIoHv,
) -> Action {
    call(DriverOp::PinmuxConfigure(PinConfig {
        group,
        function,
        pull,
        tristate: PinTristate::Passthrough,
        io,
        lock: PinLock::Default,
        od: PinOd::Disable,
        io_hv,
    }))
}

/// The accesses of a complete bring-up on hardware whose registers all read
/// as ones, stage by stage.
fn expected_trace(config: Config) -> Vec<Action> {
    let mut trace = vec![
        // Boot reason.
        write(Register::PmcScratch200, 0),
        write(Register::PmcRstStatus, 0),
        Action::Read(Register::StrappingOptA),
        write(Register::StrappingOptA, 0xF0),
        Action::Read(Register::StrappingOptA),
        write(Register::StrappingOptA, 0x1CF0),
        // Security Engine clock, fuses, memory controllers.
        call(DriverOp::ClockEnable(Clock::Se)),
        call(DriverOp::FuseInit),
        call(DriverOp::McEnable),
        // Oscillators.
        Action::Read(Register::CarSpareReg0),
        write(Register::CarSpareReg0, 0xFFFF_FFF7),
        write(Register::Sysctr0Cntfid0, 19_200_000),
        write(Register::TimerusUsecCfg, 0x45F),
        write(Register::CarOscCtrl, 0x5000_0071),
        Action::Read(Register::PmcOscEdpdOver),
        write(Register::PmcOscEdpdOver, 0xFFFF_FF8F),
        Action::Read(Register::PmcOscEdpdOver),
        write(Register::PmcOscEdpdOver, 0xFFFF_FF8F),
        Action::Read(Register::PmcCntrl2),
        write(Register::PmcCntrl2, 0xFFFF_FFFF),
        Action::Read(Register::PmcScratch188),
        write(Register::PmcScratch188, 0xFEFF_FFFF),
        write(Register::CarClkSystemRate, 0x10),
        Action::Read(Register::CarPllmbBase),
        write(Register::CarPllmbBase, 0xBFFF_FFFF),
        Action::Read(Register::PmcTscMult),
        write(Register::PmcTscMult, 0xFFFF_249F),
        write(Register::CarClkSourceSys, 0),
        write(Register::CarSclkBurstPolicy, 0x2000_4444),
        write(Register::CarSuperSclkDivider, 0x8000_0000),
        write(Register::CarClkSystemRate, 0x2),
        // Pins.
        write(Register::PinmuxGlobal, 0),
        gpio(GpioPort::D, 1),
        gpio(GpioPort::E, 6),
        gpio(GpioPort::G, 0),
        gpio(GpioPort::H, 6),
        gpio(GpioPort::X, 6),
        gpio(GpioPort::X, 7),
        pinmux(
            PinGroup::Uart1TxPu0, PinFunction::Uarta, PinPull::Off,
            PinIo::Output, PinIoHv::Default,
        ),
        pinmux(
            PinGroup::Uart1RxPu1, PinFunction::Uarta, PinPull::Up,
            PinIo::Input, PinIoHv::Default,
        ),
        pinmux(
            PinGroup::Uart1RtsPu2, PinFunction::Uarta, PinPull::Off,
            PinIo::Output, PinIoHv::Default,
        ),
        pinmux(
            PinGroup::Uart1CtsPu3, PinFunction::Uarta, PinPull::Down,
            PinIo::Input, PinIoHv::Default,
        ),
        pinmux(
            PinGroup::Uart2TxPg0, PinFunction::Uartb, PinPull::Off,
            PinIo::Output, PinIoHv::Default,
        ),
        pinmux(
            PinGroup::Uart3TxPd1, PinFunction::Uartc, PinPull::Off,
            PinIo::Output, PinIoHv::Default,
        ),
        pinmux(PinGroup::Pe6, PinFunction::Default, PinPull::Off, PinIo::Input, PinIoHv::Default),
        pinmux(PinGroup::Ph6, PinFunction::Default, PinPull::Off, PinIo::Input, PinIoHv::Default),
        pinmux(
            PinGroup::Gen1I2cSclPj1, PinFunction::I2c1, PinPull::Off,
            PinIo::Input, PinIoHv::Normal,
        ),
        pinmux(
            PinGroup::Gen1I2cSdaPj0, PinFunction::I2c1, PinPull::Off,
            PinIo::Input, PinIoHv::Normal,
        ),
        pinmux(
            PinGroup::PwrI2cSclPy3, PinFunction::I2cPmu, PinPull::Off,
            PinIo::Input, PinIoHv::Normal,
        ),
        pinmux(
            PinGroup::PwrI2cSdaPy4, PinFunction::I2cPmu, PinPull::Off,
            PinIo::Input, PinIoHv::Normal,
        ),
    ];
    if config.debug_uart {
        trace.push(call(DriverOp::UartInit(115_200)));
    }
    trace.extend([
        // Auxiliary clocks and I2C.
        call(DriverOp::ClockEnable(Clock::ClDvfs)),
        call(DriverOp::ClockEnable(Clock::Tzram)),
        call(DriverOp::I2cInit(I2cBus::C1)),
        call(DriverOp::I2cInit(I2cBus::C5)),
        // PMIC.
        pmic(0x04, 0x40),
        pmic(0x41, 0x60),
        pmic(0x43, 0x38),
        pmic(0x44, 0x3A),
        pmic(0x45, 0x38),
        pmic(0x4A, 0x0F),
        pmic(0x4E, 0xC7),
        pmic(0x4F, 0x4F),
        pmic(0x50, 0x29),
        pmic(0x52, 0x1B),
        pmic(0x56, 0x22),
        pmic(0x16, 0x2A),
    ]);
    if config.lock_pmc_scratch {
        trace.extend([
            Action::Read(Register::PmcScratch20),
            write(Register::PmcScratch20, 0xFFF3_FFFF),
            Action::Read(Register::PmcScratch190),
            write(Register::PmcScratch190, 0xFFFF_FFFE),
            Action::Read(Register::PmcSecureScratch21),
            write(Register::PmcSecureScratch21, 0xFFFF_FFFF),
        ]);
    }
    trace.push(write(Register::CarSclkBurstPolicy, 0x2000_3333));
    trace
}

fn is_pmc_scratch(reg: Register) -> bool {
    matches!(
        reg,
        Register::PmcScratch20 | Register::PmcScratch190 | Register::PmcSecureScratch21
    )
}

#[test]
fn constants() {
    assert_eq!(MAX77620_PWR, 0x3C);
    assert_eq!(BAUD_115200, 115_200);
}

#[test]
fn bring_up_issues_every_access_in_stage_order() {
    let mut hardware = MockHardware::new(0xFFFF_FFFF);
    let mut run = init_hardware(RELEASE);
    assert_eq!(drive(&mut run, &mut hardware), Ok(()));
    assert_eq!(hardware.trace, expected_trace(RELEASE));
    assert_eq!(run.outcome(), Some(Ok(())));
    assert_eq!(run.action(), Action::Finish);
    assert_eq!(run.position(), 61);
}

#[test]
fn bring_up_in_every_configuration() {
    for debug_uart in [false, true] {
        for lock_pmc_scratch in [false, true] {
            let config = Config { debug_uart, lock_pmc_scratch };
            let mut hardware = MockHardware::new(0xFFFF_FFFF);
            let mut run = init_hardware(config);
            assert_eq!(drive(&mut run, &mut hardware), Ok(()));
            assert_eq!(hardware.trace, expected_trace(config));
            let instructions = 58 + debug_uart as usize + 3 * lock_pmc_scratch as usize;
            assert_eq!(run.position(), instructions);
        }
    }
}

#[test]
fn bring_up_leaves_cleared_registers_in_their_end_state() {
    let mut hardware = MockHardware::new(0);
    let mut run = init_hardware(RELEASE);
    assert_eq!(drive(&mut run, &mut hardware), Ok(()));
    assert_eq!(hardware.read(Register::PmcScratch200), 0);
    assert_eq!(hardware.read(Register::PmcRstStatus), 0);
    assert_eq!(hardware.read(Register::StrappingOptA), 0x1C00);
    assert_eq!(hardware.read(Register::CarSpareReg0), 0x4);
    assert_eq!(hardware.read(Register::Sysctr0Cntfid0), 19_200_000);
    assert_eq!(hardware.read(Register::TimerusUsecCfg), 0x45F);
    assert_eq!(hardware.read(Register::CarOscCtrl), 0x5000_0071);
    assert_eq!(hardware.read(Register::PmcOscEdpdOver), 0x0040_000E);
    assert_eq!(hardware.read(Register::PmcCntrl2), 0x1000);
    assert_eq!(hardware.read(Register::PmcScratch188), 0x0200_0000);
    assert_eq!(hardware.read(Register::CarClkSystemRate), 0x2);
    assert_eq!(hardware.read(Register::CarPllmbBase), 0);
    assert_eq!(hardware.read(Register::PmcTscMult), 0x249F);
    assert_eq!(hardware.read(Register::CarClkSourceSys), 0);
    assert_eq!(hardware.read(Register::CarSuperSclkDivider), 0x8000_0000);
    assert_eq!(hardware.read(Register::PinmuxGlobal), 0);
    assert_eq!(hardware.read(Register::PmcScratch20), 0);
    assert_eq!(hardware.read(Register::PmcScratch190), 0);
    assert_eq!(hardware.read(Register::PmcSecureScratch21), 0x10);
    assert_eq!(hardware.read(Register::CarSclkBurstPolicy), 0x2000_3333);
}

#[test]
fn read_modify_write_keeps_the_masked_bits_of_what_was_read() {
    let mut run = Sequencer::new(vec![Instr::Modify {
        reg: Register::StrappingOptA,
        keep: 0xF0,
        set: 0x1C00,
    }]);
    assert_eq!(run.action(), Action::Read(Register::StrappingOptA));
    run.advance(Event::Value(0x1234_5678));
    assert_eq!(run.action(), Action::Write(Register::StrappingOptA, 0x1C70));
    assert_eq!(run.position(), 0);
    run.advance(Event::Done);
    assert_eq!(run.action(), Action::Finish);
    assert_eq!(run.position(), 1);
}

#[test]
fn straps_are_forced_to_seven_whatever_they_were() {
    for initial in [0u32, 0xFFFF_FFFF, 0x0000_0400, 0xDEAD_BEEF] {
        let mut hardware = MockHardware::new(0);
        hardware.registers.push((Register::StrappingOptA, initial));
        let mut run = init_hardware(RELEASE);
        assert_eq!(drive(&mut run, &mut hardware), Ok(()));
        let straps = hardware.read(Register::StrappingOptA);
        assert_eq!(straps, (initial & 0xF0) | (7 << 10));
        assert_eq!((straps >> 10) & 0x7, 7);
    }
}

#[test]
fn pin_stage_applies_six_gpios_and_twelve_pin_groups() {
    let stage = config_pinmux();
    assert_eq!(stage.len(), 19);
    assert_eq!(stage[0], Instr::Write { reg: Register::PinmuxGlobal, value: 0 });
    let gpios = stage
        .iter()
        .filter(|instr| matches!(instr, Instr::Call(DriverOp::GpioConfig(_, _))))
        .count();
    let pins = stage
        .iter()
        .filter(|instr| matches!(instr, Instr::Call(DriverOp::PinmuxConfigure(_))))
        .count();
    assert_eq!(gpios, 6);
    assert_eq!(pins, 12);
    let gpio_table = gpio_config();
    let pin_table = pin_config();
    for (i, entry) in gpio_table.iter().enumerate() {
        assert_eq!(stage[1 + i], Instr::Call(DriverOp::GpioConfig(entry.0, entry.1)));
    }
    for (i, entry) in pin_table.iter().enumerate() {
        assert_eq!(stage[7 + i], Instr::Call(DriverOp::PinmuxConfigure(*entry)));
    }
}

#[test]
fn gpio_table_has_its_six_entries() {
    let pin = |port, pin| (Gpio { port, pin }, GpioMode::Input);
    assert_eq!(
        gpio_config(),
        vec![
            pin(GpioPort::D, 1),
            pin(GpioPort::E, 6),
            pin(GpioPort::G, 0),
            pin(GpioPort::H, 6),
            pin(GpioPort::X, 6),
            pin(GpioPort::X, 7),
        ]
    );
}

#[test]
fn pin_table_has_its_twelve_entries() {
    let table = pin_config();
    assert_eq!(table.len(), 12);
    for entry in table.iter() {
        assert_eq!(entry.tristate, PinTristate::Passthrough);
        assert_eq!(entry.lock, PinLock::Default);
        assert_eq!(entry.od, PinOd::Disable);
    }
    let fields: Vec<(PinGroup, PinFunction, PinPull, PinIo, PinIoHv)> = table
        .iter()
        .map(|e| (e.group, e.function, e.pull, e.io, e.io_hv))
        .collect();
    assert_eq!(
        fields,
        vec![
            (
                PinGroup::Uart1TxPu0, PinFunction::Uarta, PinPull::Off,
                PinIo::Output, PinIoHv::Default,
            ),
            (PinGroup::Uart1RxPu1, PinFunction::Uarta, PinPull::Up, PinIo::Input, PinIoHv::Default),
            (
                PinGroup::Uart1RtsPu2, PinFunction::Uarta, PinPull::Off,
                PinIo::Output, PinIoHv::Default,
            ),
            (
                PinGroup::Uart1CtsPu3, PinFunction::Uarta, PinPull::Down,
                PinIo::Input, PinIoHv::Default,
            ),
            (
                PinGroup::Uart2TxPg0, PinFunction::Uartb, PinPull::Off,
                PinIo::Output, PinIoHv::Default,
            ),
            (
                PinGroup::Uart3TxPd1, PinFunction::Uartc, PinPull::Off,
                PinIo::Output, PinIoHv::Default,
            ),
            (PinGroup::Pe6, PinFunction::Default, PinPull::Off, PinIo::Input, PinIoHv::Default),
            (PinGroup::Ph6, PinFunction::Default, PinPull::Off, PinIo::Input, PinIoHv::Default),
            (
                PinGroup::Gen1I2cSclPj1, PinFunction::I2c1, PinPull::Off,
                PinIo::Input, PinIoHv::Normal,
            ),
            (
                PinGroup::Gen1I2cSdaPj0, PinFunction::I2c1, PinPull::Off,
                PinIo::Input, PinIoHv::Normal,
            ),
            (
                PinGroup::PwrI2cSclPy3, PinFunction::I2cPmu, PinPull::Off,
                PinIo::Input, PinIoHv::Normal,
            ),
            (
                PinGroup::PwrI2cSdaPy4, PinFunction::I2cPmu, PinPull::Off,
                PinIo::Input, PinIoHv::Normal,
            ),
        ]
    );
}

#[test]
fn no_pin_group_is_configured_twice() {
    let table = pin_config();
    for i in 0..table.len() {
        for j in i + 1..table.len() {
            assert_ne!(table[i].group, table[j].group);
        }
    }
}

#[test]
fn pmic_table_has_its_twelve_entries() {
    assert_eq!(
        pmic_config(),
        vec![
            (0x04, 0x40),
            (0x41, 0x60),
            (0x43, 0x38),
            (0x44, 0x3A),
            (0x45, 0x38),
            (0x4A, 0x0F),
            (0x4E, 0xC7),
            (0x4F, 0x4F),
            (0x50, 0x29),
            (0x52, 0x1B),
            (0x56, 0x22),
            (0x16, 0x2A),
        ]
    );
}

#[test]
fn pmic_stage_writes_every_entry_to_the_pmic() {
    let stage = config_pmic();
    let table = pmic_config();
    assert_eq!(stage.len(), 12);
    for (instr, entry) in stage.iter().zip(table.iter()) {
        assert_eq!(
            *instr,
            Instr::Transfer(BusWrite {
                bus: I2cBus::C5,
                device: 0x3C,
                register: entry.0,
                value: entry.1
            })
        );
    }
}

#[test]
fn oscillator_stage_has_its_fifteen_instructions() {
    assert_eq!(
        config_oscillators(),
        vec![
            Instr::Modify { reg: Register::CarSpareReg0, keep: 0xFFFF_FFF3, set: 0x4 },
            Instr::Write { reg: Register::Sysctr0Cntfid0, value: 19_200_000 },
            Instr::Write { reg: Register::TimerusUsecCfg, value: 0x45F },
            Instr::Write { reg: Register::CarOscCtrl, value: 0x5000_0071 },
            Instr::Modify { reg: Register::PmcOscEdpdOver, keep: 0xFFFF_FF81, set: 0xE },
            Instr::Modify { reg: Register::PmcOscEdpdOver, keep: 0xFFBF_FFFF, set: 0x40_0000 },
            Instr::Modify { reg: Register::PmcCntrl2, keep: 0xFFFF_EFFF, set: 0x1000 },
            Instr::Modify { reg: Register::PmcScratch188, keep: 0xFCFF_FFFF, set: 0x200_0000 },
            Instr::Write { reg: Register::CarClkSystemRate, value: 0x10 },
            Instr::Modify { reg: Register::CarPllmbBase, keep: 0xBFFF_FFFF, set: 0 },
            Instr::Modify { reg: Register::PmcTscMult, keep: 0xFFFF_0000, set: 0x249F },
            Instr::Write { reg: Register::CarClkSourceSys, value: 0 },
            Instr::Write { reg: Register::CarSclkBurstPolicy, value: 0x2000_4444 },
            Instr::Write { reg: Register::CarSuperSclkDivider, value: 0x8000_0000 },
            Instr::Write { reg: Register::CarClkSystemRate, value: 0x2 },
        ]
    );
}

#[test]
fn scratch_stage_has_its_three_instructions() {
    assert_eq!(
        config_pmc_scratch(),
        vec![
            Instr::Modify { reg: Register::PmcScratch20, keep: 0xFFF3_FFFF, set: 0 },
            Instr::Modify { reg: Register::PmcScratch190, keep: 0xFFFF_FFFE, set: 0 },
            Instr::Modify { reg: Register::PmcSecureScratch21, keep: 0xFFFF_FFFF, set: 0x10 },
        ]
    );
}

#[test]
fn uart_stage_adds_one_access_and_changes_no_other() {
    let mut plain = MockHardware::new(0x1357_9BDF);
    let mut debug = MockHardware::new(0x1357_9BDF);
    let mut run = init_hardware(RELEASE);
    assert_eq!(drive(&mut run, &mut plain), Ok(()));
    let mut run = init_hardware(Config { debug_uart: true, ..RELEASE });
    assert_eq!(drive(&mut run, &mut debug), Ok(()));
    let uart = call(DriverOp::UartInit(115_200));
    assert_eq!(debug.trace.iter().filter(|a| **a == uart).count(), 1);
    let rest: Vec<Action> = debug.trace.iter().copied().filter(|a| *a != uart).collect();
    assert_eq!(rest, plain.trace);
    assert_eq!(debug.registers, plain.registers);
}

#[test]
fn scratch_stage_can_be_left_out() {
    let mut hardware = MockHardware::new(0);
    let mut run = init_hardware(Config { debug_uart: false, lock_pmc_scratch: false });
    assert_eq!(drive(&mut run, &mut hardware), Ok(()));
    for action in hardware.trace.iter() {
        match action {
            Action::Read(reg) | Action::Write(reg, _) => assert!(!is_pmc_scratch(*reg)),
            _ => {}
        }
    }
    assert_eq!(hardware.trace.last(), Some(&write(Register::CarSclkBurstPolicy, 0x2000_3333)));
}

#[test]
fn a_failed_pmic_write_stops_the_sequence() {
    let table = pmic_config();
    for (k, entry) in table.iter().enumerate() {
        for fault in [I2cFault::Nack, I2cFault::Timeout] {
            let mut hardware = MockHardware::failing_at(entry.0, fault);
            let mut run = init_hardware(RELEASE);
            let outcome = drive(&mut run, &mut hardware);
            assert_eq!(
                outcome,
                Err(Error::I2c { device: 0x3C, register: entry.0, fault })
            );
            // The failed write is the last thing the bus has seen.
            assert_eq!(hardware.trace.last(), Some(&pmic(entry.0, entry.1)));
            let transfers = hardware
                .trace
                .iter()
                .filter(|a| matches!(a, Action::Transfer(_)))
                .count();
            assert_eq!(transfers, k + 1);
            let full = expected_trace(RELEASE);
            let mut all_zero = MockHardware::new(0);
            let mut complete = init_hardware(RELEASE);
            assert_eq!(drive(&mut complete, &mut all_zero), Ok(()));
            assert_eq!(hardware.trace[..], all_zero.trace[..hardware.trace.len()]);
            assert!(hardware.trace.len() < full.len());
        }
    }
}

#[test]
fn a_failed_run_hands_out_nothing_but_the_abort() {
    let mut hardware = MockHardware::failing_at(0x43, I2cFault::Timeout);
    let mut run = init_hardware(RELEASE);
    let error = Error::I2c { device: 0x3C, register: 0x43, fault: I2cFault::Timeout };
    assert_eq!(drive(&mut run, &mut hardware), Err(error));
    let position = run.position();
    for event in [
        Event::Done,
        Event::Value(0),
        Event::Value(0xFFFF_FFFF),
        Event::Fault(I2cFault::Nack),
        Event::Done,
    ] {
        run.advance(event);
        assert_eq!(run.action(), Action::Abort(error));
        assert_eq!(run.outcome(), Some(Err(error)));
        assert_eq!(run.position(), position);
    }
}

#[test]
fn a_finished_run_stays_finished() {
    let mut hardware = MockHardware::new(0);
    let mut run = init_hardware(RELEASE);
    assert_eq!(drive(&mut run, &mut hardware), Ok(()));
    for event in [Event::Done, Event::Value(7), Event::Fault(I2cFault::Nack)] {
        run.advance(event);
        assert_eq!(run.action(), Action::Finish);
        assert_eq!(run.outcome(), Some(Ok(())));
    }
}

#[test]
fn sd0_voltage_write_nacks() {
    let mut hardware = MockHardware::failing_at(0x16, I2cFault::Nack);
    let mut run = init_hardware(RELEASE);
    let outcome = drive(&mut run, &mut hardware);
    assert_eq!(
        outcome,
        Err(Error::I2c { device: MAX77620_PWR, register: 0x16, fault: I2cFault::Nack })
    );
    assert_eq!(hardware.trace.last(), Some(&pmic(0x16, 0x2A)));
    for action in hardware.trace.iter() {
        match action {
            Action::Read(reg) => assert!(!is_pmc_scratch(*reg)),
            Action::Write(reg, value) => {
                assert!(!is_pmc_scratch(*reg));
                assert_ne!((*reg, *value), (Register::CarSclkBurstPolicy, 0x2000_3333));
            }
            _ => {}
        }
    }
    // Everything up to the failed write happened, in order.
    let full = expected_trace(RELEASE);
    let mut ones = MockHardware::failing_at(0x16, I2cFault::Nack);
    ones.reset_value = 0xFFFF_FFFF;
    let mut again = init_hardware(RELEASE);
    assert!(drive(&mut again, &mut ones).is_err());
    assert_eq!(ones.trace[..], full[..full.len() - 7]);
}

#[test]
fn nothing_is_pending_before_the_run_has_stopped() {
    let mut run = init_hardware(RELEASE);
    assert_eq!(run.outcome(), None);
    assert_eq!(run.position(), 0);
    assert_eq!(run.action(), Action::Write(Register::PmcScratch200, 0));
    run.advance(Event::Done);
    assert_eq!(run.outcome(), None);
    assert_eq!(run.position(), 1);
}

#[test]
fn an_empty_program_is_finished_at_once() {
    let run = Sequencer::new(Vec::new());
    assert_eq!(run.action(), Action::Finish);
    assert_eq!(run.outcome(), Some(Ok(())));
    assert_eq!(run.position(), 0);
}

#[test]
fn a_value_reported_for_a_write_is_fatal() {
    let mut run = Sequencer::new(vec![
        Instr::Write { reg: Register::PmcScratch200, value: 0 },
        Instr::Write { reg: Register::PmcRstStatus, value: 0 },
    ]);
    run.advance(Event::Value(3));
    assert_eq!(run.action(), Action::Abort(Error::Fatal));
    assert_eq!(run.outcome(), Some(Err(Error::Fatal)));
    run.advance(Event::Done);
    assert_eq!(run.action(), Action::Abort(Error::Fatal));
}

#[test]
fn a_fault_reported_for_a_register_write_is_fatal() {
    let mut run = Sequencer::new(vec![Instr::Write { reg: Register::PmcScratch200, value: 0 }]);
    run.advance(Event::Fault(I2cFault::Nack));
    assert_eq!(run.action(), Action::Abort(Error::Fatal));
}

#[test]
fn a_fault_reported_for_a_driver_operation_is_fatal() {
    let mut run = Sequencer::new(vec![Instr::Call(DriverOp::FuseInit)]);
    assert_eq!(run.action(), Action::Driver(DriverOp::FuseInit));
    run.advance(Event::Fault(I2cFault::Timeout));
    assert_eq!(run.action(), Action::Abort(Error::Fatal));
}

#[test]
fn a_read_that_reports_no_value_is_fatal() {
    for event in [Event::Done, Event::Fault(I2cFault::Nack)] {
        let mut run = Sequencer::new(vec![Instr::Modify {
            reg: Register::PmcCntrl2,
            keep: 0xFFFF_EFFF,
            set: 0x1000,
        }]);
        run.advance(event);
        assert_eq!(run.action(), Action::Abort(Error::Fatal));
    }
}

#[test]
fn a_value_reported_for_a_bus_write_is_fatal() {
    let transfer = BusWrite { bus: I2cBus::C5, device: 0x3C, register: 0x04, value: 0x40 };
    let mut run = Sequencer::new(vec![Instr::Transfer(transfer)]);
    assert_eq!(run.action(), Action::Transfer(transfer));
    run.advance(Event::Value(0));
    assert_eq!(run.action(), Action::Abort(Error::Fatal));
}

#[test]
fn a_bus_fault_names_device_register_and_fault() {
    let transfer = BusWrite { bus: I2cBus::C1, device: 0x68, register: 0x9A, value: 1 };
    let mut run = Sequencer::new(vec![
        Instr::Transfer(transfer),
        Instr::Write { reg: Register::PmcScratch200, value: 0 },
    ]);
    run.advance(Event::Fault(I2cFault::Timeout));
    assert_eq!(
        run.action(),
        Action::Abort(Error::I2c { device: 0x68, register: 0x9A, fault: I2cFault::Timeout })
    );
    assert_eq!(run.position(), 0);
}

#[test]
fn replay_returns_what_was_pending_at_each_report() {
    let mut run = Sequencer::new(vec![
        Instr::Write { reg: Register::PmcScratch200, value: 0 },
        Instr::Modify { reg: Register::PmcTscMult, keep: 0xFFFF_0000, set: 0x249F },
        Instr::Call(DriverOp::McEnable),
    ]);
    let actions = run.replay(&[Event::Done, Event::Value(0xABCD_1234), Event::Done, Event::Done]);
    assert_eq!(
        actions,
        vec![
            Action::Write(Register::PmcScratch200, 0),
            Action::Read(Register::PmcTscMult),
            Action::Write(Register::PmcTscMult, 0xABCD_249F),
            Action::Driver(DriverOp::McEnable),
        ]
    );
    assert_eq!(run.action(), Action::Finish);
}

#[test]
fn replay_of_no_reports_changes_nothing() {
    let mut run = init_hardware(RELEASE);
    assert_eq!(run.replay(&[]), Vec::<Action>::new());
    assert_eq!(run.position(), 0);
    assert_eq!(run.action(), Action::Write(Register::PmcScratch200, 0));
}

#[test]
fn replay_of_a_recorded_bring_up_gives_the_recorded_trace() {
    let mut hardware = MockHardware::new(0x0F0F_0F0F);
    let mut events = Vec::new();
    let mut run = init_hardware(RELEASE);
    while run.outcome().is_none() {
        let event = hardware.perform(run.action());
        events.push(event);
        run.advance(event);
    }
    let mut again = init_hardware(RELEASE);
    assert_eq!(again.replay(&events), hardware.trace);
    assert_eq!(again.outcome(), Some(Ok(())));
}

#[test]
fn replay_past_a_fault_hands_out_only_the_abort() {
    let transfer = BusWrite { bus: I2cBus::C5, device: 0x3C, register: 0x41, value: 0x60 };
    let error = Error::I2c { device: 0x3C, register: 0x41, fault: I2cFault::Nack };
    let mut run = Sequencer::new(vec![
        Instr::Call(DriverOp::I2cInit(I2cBus::C5)),
        Instr::Transfer(transfer),
        Instr::Write { reg: Register::CarSclkBurstPolicy, value: 0x2000_3333 },
    ]);
    let actions = run.replay(&[
        Event::Done,
        Event::Fault(I2cFault::Nack),
        Event::Done,
        Event::Done,
        Event::Value(1),
    ]);
    assert_eq!(
        actions,
        vec![
            Action::Driver(DriverOp::I2cInit(I2cBus::C5)),
            Action::Transfer(transfer),
            Action::Abort(error),
            Action::Abort(error),
            Action::Abort(error),
        ]
    );
    assert_eq!(run.outcome(), Some(Err(error)));
}

/// What a complete bring-up leaves in a register that held `before`.
fn end_state(reg: Register, before: u32, lock_pmc_scratch: bool) -> u32 {
    match reg {
        Register::StrappingOptA => (before & 0xF0) | 0x1C00,
        Register::PinmuxGlobal => 0,
        Register::CarSpareReg0 => (before & 0xFFFF_FFF3) | 0x4,
        Register::CarOscCtrl => 0x5000_0071,
        Register::CarClkSystemRate => 0x2,
        Register::CarPllmbBase => before & 0xBFFF_FFFF,
        Register::CarClkSourceSys => 0,
        Register::CarSclkBurstPolicy => 0x2000_3333,
        Register::CarSuperSclkDivider => 0x8000_0000,
        Register::Sysctr0Cntfid0 => 19_200_000,
        Register::TimerusUsecCfg => 0x45F,
        Register::PmcScratch200 => 0,
        Register::PmcRstStatus => 0,
        Register::PmcOscEdpdOver => (before & 0xFFBF_FF81) | 0x40_000E,
        Register::PmcCntrl2 => before | 0x1000,
        Register::PmcScratch188 => (before & 0xFCFF_FFFF) | 0x200_0000,
        Register::PmcTscMult => (before & 0xFFFF_0000) | 0x249F,
        Register::PmcScratch20 if lock_pmc_scratch => before & 0xFFF3_FFFF,
        Register::PmcScratch190 if lock_pmc_scratch => before & 0xFFFF_FFFE,
        Register::PmcSecureScratch21 if lock_pmc_scratch => before | 0x10,
        _ => before,
    }
}

const REGISTERS: [Register; 20] = [
    Register::StrappingOptA,
    Register::PinmuxGlobal,
    Register::CarSpareReg0,
    Register::CarOscCtrl,
    Register::CarClkSystemRate,
    Register::CarPllmbBase,
    Register::CarClkSourceSys,
    Register::CarSclkBurstPolicy,
    Register::CarSuperSclkDivider,
    Register::Sysctr0Cntfid0,
    Register::TimerusUsecCfg,
    Register::PmcScratch200,
    Register::PmcRstStatus,
    Register::PmcOscEdpdOver,
    Register::PmcCntrl2,
    Register::PmcScratch188,
    Register::PmcTscMult,
    Register::PmcScratch20,
    Register::PmcScratch190,
    Register::PmcSecureScratch21,
];

#[test]
fn bring_up_reaches_its_end_state_from_any_register_contents() {
    for before in [0u32, 0xFFFF_FFFF, 0xA5A5_A5A5, 0x5A5A_5A5A, 0x0040_0C0E, 0x1234_5678] {
        for debug_uart in [false, true] {
            for lock_pmc_scratch in [false, true] {
                let mut hardware = MockHardware::new(before);
                let mut run = init_hardware(Config { debug_uart, lock_pmc_scratch });
                assert_eq!(drive(&mut run, &mut hardware), Ok(()));
                for reg in REGISTERS {
                    assert_eq!(
                        hardware.read(reg),
                        end_state(reg, before, lock_pmc_scratch),
                        "{:?} from {:#x}",
                        reg,
                        before
                    );
                }
            }
        }
    }
}

#[test]
fn end_state_fields() {
    for before in [0u32, 0xFFFF_FFFF, 0xA5A5_A5A5, 0x5A5A_5A5A] {
        let mut hardware = MockHardware::new(before);
        let mut run = init_hardware(RELEASE);
        assert_eq!(drive(&mut run, &mut hardware), Ok(()));
        let straps = hardware.read(Register::StrappingOptA);
        assert_eq!((straps >> 10) & 0x7, 7);
        assert_eq!(straps & 0xF0, before & 0xF0);
        assert_eq!(straps & !0x1CF0, 0);
        assert_eq!((hardware.read(Register::CarSpareReg0) >> 2) & 0x3, 1);
        assert_eq!((hardware.read(Register::PmcOscEdpdOver) >> 1) & 0x3F, 7);
        assert_eq!((hardware.read(Register::PmcOscEdpdOver) >> 22) & 0x1, 1);
        assert_eq!((hardware.read(Register::PmcCntrl2) >> 12) & 0x1, 1);
        assert_eq!((hardware.read(Register::PmcScratch188) >> 24) & 0x3, 2);
        assert_eq!((hardware.read(Register::CarPllmbBase) >> 30) & 0x1, 0);
        assert_eq!(hardware.read(Register::PmcTscMult) & 0xFFFF, 0x249F);
        assert_eq!((hardware.read(Register::PmcScratch20) >> 18) & 0x3, 0);
        assert_eq!(hardware.read(Register::PmcScratch190) & 0x1, 0);
        assert_eq!((hardware.read(Register::PmcSecureScratch21) >> 4) & 0x1, 1);
    }
}
