//! The vocabulary shared with the hardware layer: the registers, pins,
//! buses and driver operations that the boot code names, as plain values.
//!
//! Nothing here touches hardware. The boot logic decides *which* operation
//! comes next and with *which* value; whoever owns the register blocks
//! performs it and reports back.

use vstd::prelude::*;

verus! {

/// A memory-mapped register that the boot code reads or writes directly.
#[derive(Clone, Copy, Debug, PartialEq, Eq, Structural)]
pub enum Register {
    /// `APB_MISC_PP_STRAPPING_OPT_A_0`
    StrappingOptA,
    /// `APB_MISC_PP_PINMUX_GLOBAL_0_0`
    PinmuxGlobal,
    /// `CLK_RST_CONTROLLER_SPARE_REG0_0`
    CarSpareReg0,
    /// `CLK_RST_CONTROLLER_OSC_CTRL_0`
    CarOscCtrl,
    /// `CLK_RST_CONTROLLER_CLK_SYSTEM_RATE_0`
    CarClkSystemRate,
    /// `CLK_RST_CONTROLLER_PLLMB_BASE_0`
    CarPllmbBase,
    /// `CLK_RST_CONTROLLER_CLK_SOURCE_SYS_0`
    CarClkSourceSys,
    /// `CLK_RST_CONTROLLER_SCLK_BURST_POLICY_0`
    CarSclkBurstPolicy,
    /// `CLK_RST_CONTROLLER_SUPER_SCLK_DIVIDER_0`
    CarSuperSclkDivider,
    /// `SYSCTR0_CNTFID0_0`
    Sysctr0Cntfid0,
    /// `TIMERUS_USEC_CFG_0`
    TimerusUsecCfg,
    /// `APBDEV_PMC_SCRATCH200_0`
    PmcScratch200,
    /// `APBDEV_PMC_RST_STATUS_0`
    PmcRstStatus,
    /// `APBDEV_PMC_OSC_EDPD_OVER_0`
    PmcOscEdpdOver,
    /// `APBDEV_PMC_CNTRL2_0`
    PmcCntrl2,
    /// `APBDEV_PMC_SCRATCH188_0`
    PmcScratch188,
    /// `APBDEV_PMC_TSC_MULT_0`
    PmcTscMult,
    /// `APBDEV_PMC_SCRATCH20_0`
    PmcScratch20,
    /// `APBDEV_PMC_SCRATCH190_0`
    PmcScratch190,
    /// `APBDEV_PMC_SECURE_SCRATCH21_0`
    PmcSecureScratch21,
}

/// A clock gate of the clock-and-reset controller.
#[derive(Clone, Copy, Debug, PartialEq, Eq, Structural)]
pub enum Clock {
    /// Security Engine.
    Se,
    /// Dynamic voltage and frequency scaling controller.
    ClDvfs,
    /// Secure on-chip RAM.
    Tzram,
}

/// An instance of the Security Engine.
#[derive(Clone, Copy, Debug, PartialEq, Eq, Structural)]
pub enum SecurityEngine {
    Se1,
    Se2,
}

/// An I2C controller.
#[derive(Clone, Copy, Debug, PartialEq, Eq, Structural)]
pub enum I2cBus {
    /// The general-purpose bus, I2C-1.
    C1,
    /// The power-management bus, I2C-5.
    C5,
}

/// The way a single I2C transaction can fail.
#[derive(Clone, Copy, Debug, PartialEq, Eq, Structural)]
pub enum I2cFault {
    /// The addressed device did not acknowledge.
    Nack,
    /// The controller gave up waiting for the transfer.
    Timeout,
}

/// A GPIO port of the SoC, as far as the boot code uses them.
#[derive(Clone, Copy, Debug, PartialEq, Eq, Structural)]
pub enum GpioPort {
    D,
    E,
    G,
    H,
    V,
    X,
}

/// One GPIO pin: a port and a pin number within it.
#[derive(Clone, Copy, Debug, PartialEq, Eq, Structural)]
pub struct Gpio {
    pub port: GpioPort,
    pub pin: u8,
}

/// Direction and initial level of a GPIO pin.
#[derive(Clone, Copy, Debug, PartialEq, Eq, Structural)]
pub enum GpioMode {
    Input,
    OutputLow,
    OutputHigh,
}

/// Level driven on an output pin.
#[derive(Clone, Copy, Debug, PartialEq, Eq, Structural)]
pub enum Level {
    Low,
    High,
}

/// A pin group of the pin multiplexer.
#[derive(Clone, Copy, Debug, PartialEq, Eq, Structural)]
pub enum PinGroup {
    Uart1TxPu0,
    Uart1RxPu1,
    Uart1RtsPu2,
    Uart1CtsPu3,
    Uart2TxPg0,
    Uart3TxPd1,
    Pe6,
    Ph6,
    Gen1I2cSclPj1,
    Gen1I2cSdaPj0,
    PwrI2cSclPy3,
    PwrI2cSdaPy4,
    LcdBlPwmPv0,
    LcdBlEnPv1,
}

/// The function that a pin group is switched to.
#[derive(Clone, Copy, Debug, PartialEq, Eq, Structural)]
pub enum PinFunction {
    Default,
    Uarta,
    Uartb,
    Uartc,
    I2c1,
    I2cPmu,
}

/// Pull resistor of a pin group.
#[derive(Clone, Copy, Debug, PartialEq, Eq, Structural)]
pub enum PinPull {
    Off,
    Down,
    Up,
}

/// Whether a pin group's output driver is connected.
#[derive(Clone, Copy, Debug, PartialEq, Eq, Structural)]
pub enum PinTristate {
    Passthrough,
    Tristate,
}

/// Whether a pin group's input receiver is enabled.
#[derive(Clone, Copy, Debug, PartialEq, Eq, Structural)]
pub enum PinIo {
    Output,
    Input,
}

/// Lock state of a pin group's pad control register.
#[derive(Clone, Copy, Debug, PartialEq, Eq, Structural)]
pub enum PinLock {
    Default,
    Disable,
    Enable,
}

/// Open-drain mode of a pin group.
#[derive(Clone, Copy, Debug, PartialEq, Eq, Structural)]
pub enum PinOd {
    Disable,
    Enable,
}

/// High-voltage I/O mode of a pin group.
#[derive(Clone, Copy, Debug, PartialEq, Eq, Structural)]
pub enum PinIoHv {
    Default,
    Normal,
    High,
}

/// Complete configuration of one pin group.
#[derive(Clone, Copy, Debug, PartialEq, Eq, Structural)]
pub struct PinConfig {
    pub group: PinGroup,
    pub function: PinFunction,
    pub pull: PinPull,
    pub tristate: PinTristate,
    pub io: PinIo,
    pub lock: PinLock,
    pub od: PinOd,
    pub io_hv: PinIoHv,
}

/// One byte written to a sub-register of a device on an I2C bus.
#[derive(Clone, Copy, Debug, PartialEq, Eq, Structural)]
pub struct BusWrite {
    pub bus: I2cBus,
    pub device: u32,
    pub register: u8,
    pub value: u8,
}

/// An operation of a peripheral driver that cannot fail.
#[derive(Clone, Copy, Debug, PartialEq, Eq, Structural)]
pub enum DriverOp {
    /// Ungate a clock and take the block out of reset.
    ClockEnable(Clock),
    /// Make the fuse registers visible, disable the private key and
    /// disable programming.
    FuseInit,
    /// Disable fuse programming until the next reboot.
    FuseDisableProgramming,
    /// Enable the clocks of the memory controllers and disable AHB redirection.
    McEnable,
    /// Set direction and level of a GPIO pin.
    GpioConfig(Gpio, GpioMode),
    /// Drive a GPIO output pin.
    GpioWrite(Gpio, Level),
    /// Apply every field of a pin group's configuration.
    PinmuxConfigure(PinConfig),
    /// Change only the tristate field of a pin group.
    PinmuxTristate(PinGroup, PinTristate),
    /// Bring up the diagnostic UART at the given baud rate.
    UartInit(u32),
    /// Bring up an I2C controller.
    I2cInit(I2cBus),
    /// Gate a Security Engine.
    SeDisable(SecurityEngine),
    /// Busy-wait for the given number of microseconds.
    Sleep(u32),
}

} // verus!
