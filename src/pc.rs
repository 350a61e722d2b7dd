//! Configuration of power modes and clocks (system clock generator, system
//! mode controller) and the clock frequencies that follow from it.

use vstd::prelude::*;

verus! {

/// Set the configuration of XTAL and EXTAL pins.
#[derive(Clone, Copy, Debug, PartialEq, Eq, Structural)]
pub enum SystemOscillatorInput {
    /// Neither a crystal oscillator nor an external clock is connected.
    Disconnected,
    /// A crystal oscillator is connected between XTAL and EXTAL pins.
    ///
    /// The `u32` value specifies the oscillator frequency in Hz
    Crystal(u32),
    /// An external clock reference is connected to the EXTAL pins.
    ///
    /// The `u32` value specifies the reference frequency in Hz
    Reference(u32),
}

impl SystemOscillatorInput {
    pub open spec fn frequency(self) -> Option<u32> {
        match self {
            SystemOscillatorInput::Crystal(f) => Some(f),
            SystemOscillatorInput::Reference(f) => Some(f),
            SystemOscillatorInput::Disconnected => None,
        }
    }

    /// The frequency of the oscillator or reference, if one is connected.
    pub fn clock_frequency(&self) -> (r: Option<u32>)
        ensures
            r == self.frequency(),
    {
        match *self {
            SystemOscillatorInput::Crystal(f) => Some(f),
            SystemOscillatorInput::Reference(f) => Some(f),
            SystemOscillatorInput::Disconnected => None,
        }
    }
}

impl Default for SystemOscillatorInput {
    fn default() -> (r: Self)
        ensures
            r == SystemOscillatorInput::Disconnected,
    {
        SystemOscillatorInput::Disconnected
    }
}

/// SCG Run Modes
#[derive(Clone, Copy, Debug, PartialEq, Eq, Structural)]
pub enum Mode {
    /// Run mode
    ///
    /// - `CORE_CLK` and `SYS_CLK` clock frequency must be 80 MHz or less (but not configured to be less than `BUS_CLK`).
    /// - `BUS_CLK` clock frequency must be 48 MHz or less (when using PLL as system clock source maximum bus clock frequency is 40 MHz).
    /// - `FLASH_CLK` clock frequency must be 26.67 MHz or less.
    /// - The core clock to flash clock ratio is limited to a max value of 8.
    Run(RunMode),
    /// High Speed Run mode
    ///
    /// - `CORE_CLK` and `SYS_CLK` clock frequency must be 112 MHz or less.
    /// - `BUS_CLK` clock frequency must be 56 MHz or less.
    /// - `FLASH_CLK` clock frequency must be 28 MHz or less.
    /// - The core clock to flash clock ratio is limited to a max value of 8.
    HighSpeed(HighSpeedMode),
    /// Very low power mode
    VeryLowPower(VeryLowPowerMode),
}

impl Default for Mode {
    fn default() -> (r: Self)
        ensures
            r == Mode::Run(RunMode::FIRC),
    {
        Mode::Run(RunMode::FIRC)
    }
}

/// Clock selection modes available in `Mode::Run(_)`
#[derive(Clone, Copy, Debug, PartialEq, Eq, Structural)]
pub enum RunMode {
    /// System Oscillator Clock
    SOSC,
    /// Slow Internal Reference Clock
    SIRC,
    /// Fast internal Reference Clock
    FIRC,
    /// Sys PLL
    SPLL,
}

/// Clock selection modes available in `Mode::HighSpeed(_)`
#[derive(Clone, Copy, Debug, PartialEq, Eq, Structural)]
pub enum HighSpeedMode {
    /// Fast internal Reference Clock
    FIRC,
    /// Sys PLL
    SPLL,
}

/// Clock selection modes available in `Mode::VeryLowPower(_)`
#[derive(Clone, Copy, Debug, PartialEq, Eq, Structural)]
pub enum VeryLowPowerMode {
    /// Slow Internal Reference Clock
    SIRC,
}

/// Clock divider for `CORE_CLK` and `SYS_CLK`: divide by 1 to 16.
#[derive(Clone, Copy, Debug, PartialEq, Eq, Structural)]
pub enum DivCore {
    Div1,
    Div2,
    Div3,
    Div4,
    Div5,
    Div6,
    Div7,
    Div8,
    Div9,
    Div10,
    Div11,
    Div12,
    Div13,
    Div14,
    Div15,
    Div16,
}

/// The DIVCORE field value: the divisor minus one.
pub open spec fn div_core_bits(d: DivCore) -> u8 {
    match d {
        DivCore::Div1 => 0,
        DivCore::Div2 => 1,
        DivCore::Div3 => 2,
        DivCore::Div4 => 3,
        DivCore::Div5 => 4,
        DivCore::Div6 => 5,
        DivCore::Div7 => 6,
        DivCore::Div8 => 7,
        DivCore::Div9 => 8,
        DivCore::Div10 => 9,
        DivCore::Div11 => 10,
        DivCore::Div12 => 11,
        DivCore::Div13 => 12,
        DivCore::Div14 => 13,
        DivCore::Div15 => 14,
        DivCore::Div16 => 15,
    }
}

impl DivCore {
    /// The DIVCORE field value.
    pub fn bits(&self) -> (r: u8)
        ensures
            r == div_core_bits(*self),
            r < 16,
    {
        match self {
            DivCore::Div1 => 0,
            DivCore::Div2 => 1,
            DivCore::Div3 => 2,
            DivCore::Div4 => 3,
            DivCore::Div5 => 4,
            DivCore::Div6 => 5,
            DivCore::Div7 => 6,
            DivCore::Div8 => 7,
            DivCore::Div9 => 8,
            DivCore::Div10 => 9,
            DivCore::Div11 => 10,
            DivCore::Div12 => 11,
            DivCore::Div13 => 12,
            DivCore::Div14 => 13,
            DivCore::Div15 => 14,
            DivCore::Div16 => 15,
        }
    }

    /// The number the clock is divided by.
    pub fn divisor(&self) -> (r: u32)
        ensures
            r == div_core_bits(*self) + 1,
            1 <= r <= 16,
    {
        self.bits() as u32 + 1
    }
}

impl Default for DivCore {
    fn default() -> (r: Self)
        ensures
            r == DivCore::Div1,
    {
        DivCore::Div1
    }
}

impl From<DivCore> for u8 {
    fn from(d: DivCore) -> (r: u8) {
        d.bits()
    }
}

impl vstd::std_specs::convert::FromSpecImpl<DivCore> for u8 {
    open spec fn obeys_from_spec() -> bool {
        true
    }

    open spec fn from_spec(v: DivCore) -> u8 {
        div_core_bits(v)
    }
}

impl From<DivCore> for u32 {
    fn from(d: DivCore) -> (r: u32) {
        d.bits() as u32
    }
}

impl vstd::std_specs::convert::FromSpecImpl<DivCore> for u32 {
    open spec fn obeys_from_spec() -> bool {
        true
    }

    open spec fn from_spec(v: DivCore) -> u32 {
        div_core_bits(v) as u32
    }
}

/// Clock divider options for system oscillator.
#[derive(Clone, Copy, Debug, PartialEq, Eq, Structural)]
pub enum SystemOscillatorOutput {
    /// Output disabled
    Disable,
    /// Divide by 1
    Div1,
    /// Divide by 2
    Div2,
    /// Divide by 4
    Div4,
    /// Divide by 8
    Div8,
    /// Divide by 16
    Div16,
    /// Divide by 32
    Div32,
    /// Divide by 64
    Div64,
}

/// The SOSCDIV field value.
pub open spec fn output_bits(o: SystemOscillatorOutput) -> u8 {
    match o {
        SystemOscillatorOutput::Disable => 0,
        SystemOscillatorOutput::Div1 => 1,
        SystemOscillatorOutput::Div2 => 2,
        SystemOscillatorOutput::Div4 => 3,
        SystemOscillatorOutput::Div8 => 4,
        SystemOscillatorOutput::Div16 => 5,
        SystemOscillatorOutput::Div32 => 6,
        SystemOscillatorOutput::Div64 => 7,
    }
}

/// The number an enabled output divides the oscillator by.
pub open spec fn output_divisor(o: SystemOscillatorOutput) -> u32 {
    match o {
        SystemOscillatorOutput::Disable => 0,
        SystemOscillatorOutput::Div1 => 1,
        SystemOscillatorOutput::Div2 => 2,
        SystemOscillatorOutput::Div4 => 4,
        SystemOscillatorOutput::Div8 => 8,
        SystemOscillatorOutput::Div16 => 16,
        SystemOscillatorOutput::Div32 => 32,
        SystemOscillatorOutput::Div64 => 64,
    }
}

impl SystemOscillatorOutput {
    /// The SOSCDIV field value.
    pub fn bits(&self) -> (r: u8)
        ensures
            r == output_bits(*self),
            r < 8,
    {
        match self {
            SystemOscillatorOutput::Disable => 0,
            SystemOscillatorOutput::Div1 => 1,
            SystemOscillatorOutput::Div2 => 2,
            SystemOscillatorOutput::Div4 => 3,
            SystemOscillatorOutput::Div8 => 4,
            SystemOscillatorOutput::Div16 => 5,
            SystemOscillatorOutput::Div32 => 6,
            SystemOscillatorOutput::Div64 => 7,
        }
    }
}

impl From<SystemOscillatorOutput> for u8 {
    fn from(div: SystemOscillatorOutput) -> (r: u8) {
        div.bits()
    }
}

impl vstd::std_specs::convert::FromSpecImpl<SystemOscillatorOutput> for u8 {
    open spec fn obeys_from_spec() -> bool {
        true
    }

    open spec fn from_spec(v: SystemOscillatorOutput) -> u8 {
        output_bits(v)
    }
}

impl From<SystemOscillatorOutput> for usize {
    fn from(div: SystemOscillatorOutput) -> (r: usize) {
        div.bits() as usize
    }
}

impl vstd::std_specs::convert::FromSpecImpl<SystemOscillatorOutput> for usize {
    open spec fn obeys_from_spec() -> bool {
        true
    }

    open spec fn from_spec(v: SystemOscillatorOutput) -> usize {
        output_bits(v) as usize
    }
}

impl From<SystemOscillatorOutput> for isize {
    fn from(div: SystemOscillatorOutput) -> (r: isize) {
        div.bits() as isize
    }
}

impl vstd::std_specs::convert::FromSpecImpl<SystemOscillatorOutput> for isize {
    open spec fn obeys_from_spec() -> bool {
        true
    }

    open spec fn from_spec(v: SystemOscillatorOutput) -> isize {
        output_bits(v) as isize
    }
}

impl Default for SystemOscillatorOutput {
    fn default() -> (r: Self)
        ensures
            r == SystemOscillatorOutput::Disable,
    {
        SystemOscillatorOutput::Disable
    }
}

/// Configurations for the System Clock Generator
#[derive(Clone, Copy, Debug, PartialEq, Eq, Structural)]
pub struct Config {
    /// Set the power mode and system clock source
    pub mode: Mode,
    /// Clock divider for `CORE_CLK` and `SYS_CLK`.
    pub div_core: DivCore,
    /// Set the configuration of XTAL and EXTAL pins.
    pub system_oscillator: SystemOscillatorInput,
    /// Set the divider for the soscdiv1_clk
    ///
    /// This should be configured to 40MHz or less in RUN/HSRUN mode.
    pub soscdiv1: SystemOscillatorOutput,
    /// Set the divider for the soscdiv2_clk
    ///
    /// This should be configured to 40MHz or less in RUN/HSRUN mode.
    pub soscdiv2: SystemOscillatorOutput,
}

impl Default for Config {
    fn default() -> (r: Self)
        ensures
            r == (Config {
                mode: Mode::Run(RunMode::FIRC),
                div_core: DivCore::Div1,
                system_oscillator: SystemOscillatorInput::Disconnected,
                soscdiv1: SystemOscillatorOutput::Disable,
                soscdiv2: SystemOscillatorOutput::Disable,
            }),
    {
        Config {
            mode: Mode::default(),
            div_core: DivCore::default(),
            system_oscillator: SystemOscillatorInput::default(),
            soscdiv1: SystemOscillatorOutput::default(),
            soscdiv2: SystemOscillatorOutput::default(),
        }
    }
}

/// The valid error types for Pc::init()
#[derive(Clone, Copy, Debug, PartialEq, Eq, Structural)]
pub enum Error {
    NoSystemOscillator,
}

/// The modes that can be entered: run mode clocked by the system oscillator
/// or by the fast internal reference clock.
pub open spec fn supported(mode: Mode) -> bool {
    mode == Mode::Run(RunMode::SOSC) || mode == Mode::Run(RunMode::FIRC)
}

/// Whether a mode can be entered.
pub fn is_supported(mode: Mode) -> (r: bool)
    ensures
        r == supported(mode),
{
    mode == Mode::Run(RunMode::SOSC) || mode == Mode::Run(RunMode::FIRC)
}

/// Frequency of the fast internal reference clock, in Hz.
pub const FIRC_FREQUENCY: u32 = 48_000_000;

/// The frequency of an oscillator output, if the oscillator is connected and
/// the output enabled.
pub open spec fn output_frequency(input: SystemOscillatorInput, output: SystemOscillatorOutput) -> Option<u32> {
    match input.frequency() {
        Some(f) => if output == SystemOscillatorOutput::Disable {
            None
        } else {
            Some((f / output_divisor(output)) as u32)
        },
        None => None,
    }
}

/// An accepted clock configuration.
pub struct Pc {
    config: Config,
}

impl Pc {
    pub closed spec fn configuration(&self) -> Config {
        self.config
    }

    pub closed spec fn wf(&self) -> bool {
        &&& supported(self.config.mode)
        &&& self.config.mode == Mode::Run(RunMode::SOSC) ==> self.config.system_oscillator.frequency() is Some
    }

    /// Accepts a configuration in a supported mode. Run mode on the system
    /// oscillator needs an oscillator.
    pub fn init(config: Config) -> (r: Result<Pc, Error>)
        requires
            supported(config.mode),
        ensures
            r is Err <==> (config.mode == Mode::Run(RunMode::SOSC)
                && config.system_oscillator == SystemOscillatorInput::Disconnected),
            r is Err ==> r == Err::<Pc, Error>(Error::NoSystemOscillator),
            r is Ok ==> r->Ok_0.wf() && r->Ok_0.configuration() == config,
    {
        if config.mode == Mode::Run(RunMode::SOSC) && config.system_oscillator
            == SystemOscillatorInput::Disconnected {
            return Err(Error::NoSystemOscillator);
        }
        Ok(Pc { config })
    }

    pub fn config(&self) -> (r: Config)
        ensures
            r == self.configuration(),
    {
        self.config
    }

    fn output_freq(&self, output: SystemOscillatorOutput) -> (r: Option<u32>)
        ensures
            r == output_frequency(self.config.system_oscillator, output),
    {
        let freq = match self.config.system_oscillator.clock_frequency() {
            Some(f) => f,
            None => return None,
        };
        let div: u32 = match output {
            SystemOscillatorOutput::Disable => return None,
            SystemOscillatorOutput::Div1 => 1,
            SystemOscillatorOutput::Div2 => 2,
            SystemOscillatorOutput::Div4 => 4,
            SystemOscillatorOutput::Div8 => 8,
            SystemOscillatorOutput::Div16 => 16,
            SystemOscillatorOutput::Div32 => 32,
            SystemOscillatorOutput::Div64 => 64,
        };
        Some(freq / div)
    }

    /// Return the frequency of soscdiv1 clock if running
    pub fn soscdiv1_freq(&self) -> (r: Option<u32>)
        ensures
            r == output_frequency(self.configuration().system_oscillator, self.configuration().soscdiv1),
    {
        self.output_freq(self.config.soscdiv1)
    }

    /// Return the frequency of soscdiv2 clock if running
    pub fn soscdiv2_freq(&self) -> (r: Option<u32>)
        ensures
            r == output_frequency(self.configuration().system_oscillator, self.configuration().soscdiv2),
    {
        self.output_freq(self.config.soscdiv2)
    }

    /// Return the frequency of `CORE_CLK` in Hz: the selected clock divided
    /// by the core divider.
    pub fn core_freq(&self) -> (r: u32)
        requires
            self.wf(),
        ensures
            self.configuration().mode == Mode::Run(RunMode::FIRC) ==> r == FIRC_FREQUENCY / (
            div_core_bits(self.configuration().div_core) + 1) as u32,
            self.configuration().mode == Mode::Run(RunMode::SOSC) ==> r
                == self.configuration().system_oscillator.frequency().unwrap() / (div_core_bits(
                self.configuration().div_core,
            ) + 1) as u32,
    {
        let divisor = self.config.div_core.divisor();
        if self.config.mode == Mode::Run(RunMode::FIRC) {
            FIRC_FREQUENCY / divisor
        } else {
            self.config.system_oscillator.clock_frequency().unwrap() / divisor
        }
    }
}

} // verus!
