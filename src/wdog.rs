//! Watchdog settings and the decisions of its reconfiguration.

use vstd::prelude::*;

verus! {

#[derive(Clone, Copy, Debug, PartialEq, Eq, Structural)]
pub enum WatchdogWindow {
    Disabled,
    Enabled(u16),
}

#[derive(Clone, Copy, Debug, PartialEq, Eq, Structural)]
pub struct WatchdogSettings {
    /// The watchdog counter is continuously compared with the timeout value.
    /// If the counter reaches the timeout value, the watchdog forces a
    /// reset triggering event.
    pub timeout_value: u16,
    /// When the window mode is active the window describes the earliest time that
    /// a refresh is considered active. Refreshing earlier than the window will
    /// result in the watchdog resetting the MCU
    pub window: WatchdogWindow,
    /// This is a fixed 256 pre-scaling of the watchdog counter reference clock.
    pub prescaler: bool,
    pub enable: bool,
    /// When interrupts are enabled a reset-triggering event will first cause
    /// the watchdog to generate an interrupt request.
    /// Next, the watchdog delays 128 bus clock cycles before forcing a reset.
    pub interrupt_enable: bool,
    /// This bit allows software to reconfigure the watchdog without a reset
    ///
    /// false: After the initial configuration, the watchdog cannot be later
    /// modified without forcing a reset
    ///
    /// true: Software can modify the watchdog configuration registers within
    /// 128 bus clocks after performing the unlock write sequence
    pub allow_updates: bool,
    /// enables the watchdog when the chip is in debug mode
    pub debug_enable: bool,
    /// enables the watchdog when the chip is in wait mode
    pub wait_enable: bool,
    /// enables the watchdog when the chip is in stop mode
    pub stop_enable: bool,
}

impl Default for WatchdogSettings {
    fn default() -> (r: Self)
        ensures
            r == (WatchdogSettings {
                timeout_value: 0x0400,
                window: WatchdogWindow::Disabled,
                prescaler: false,
                enable: true,
                interrupt_enable: false,
                allow_updates: false,
                debug_enable: false,
                wait_enable: false,
                stop_enable: false,
            }),
    {
        WatchdogSettings {
            timeout_value: 0x0400,
            window: WatchdogWindow::Disabled,
            prescaler: false,
            enable: true,
            interrupt_enable: false,
            allow_updates: false,
            debug_enable: false,
            wait_enable: false,
            stop_enable: false,
        }
    }
}

#[derive(Clone, Copy, Debug, PartialEq, Eq, Structural)]
pub enum WatchdogError {
    ReconfigurationDisallowed,
    UnlockFailed,
    ConfigurationFailed,
}

/// Written to CNT, refreshes the watchdog.
pub const REFRESH_KEY: u32 = 0xB480_A602;

/// Written to CNT, unlocks the configuration registers.
pub const UNLOCK_KEY: u32 = 0xD928_C520;

/// How many times the unlock key is written before giving up.
pub const UNLOCK_TRIES: u32 = 3;

/// How many reads of the unlock flag follow each unlock write.
pub const UNLOCK_CHECKS: u32 = 5000;

impl WatchdogWindow {
    /// The WIN register value and whether window mode is on.
    pub fn register_value(&self) -> (r: (u16, bool))
        ensures
            r == (match *self {
                WatchdogWindow::Enabled(x) => (x, true),
                WatchdogWindow::Disabled => (0u16, false),
            }),
    {
        match *self {
            WatchdogWindow::Enabled(x) => (x, true),
            WatchdogWindow::Disabled => (0x0000, false),
        }
    }
}

/// What a reconfiguration has to do, from the unlock flag and whether the
/// watchdog is still taking a previous configuration: `Ok(true)` when the
/// unlock sequence must be written first, `Ok(false)` when the registers are
/// already unlocked. A locked watchdog that is still being configured cannot
/// be reconfigured.
pub fn unlock_needed(unlocked: bool, under_configuration: bool) -> (r: Result<bool, WatchdogError>)
    ensures
        r == (if unlocked {
            Ok::<bool, WatchdogError>(false)
        } else if under_configuration {
            Err(WatchdogError::ReconfigurationDisallowed)
        } else {
            Ok(true)
        }),
{
    if unlocked {
        Ok(false)
    } else if under_configuration {
        Err(WatchdogError::ReconfigurationDisallowed)
    } else {
        Ok(true)
    }
}

} // verus!
