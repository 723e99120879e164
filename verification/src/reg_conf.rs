//! Sensor configuration register: nine independent flag fields at bit
//! offsets 0 through 8. Each flag is a 2-valued enum at exactly one bit;
//! getting or setting one never touches any other bit.
use crate::bus::Read;
use crate::reg::Register;
use vstd::prelude::*;

verus! {

pub const REGISTER_PTR: u8 = 0b0001;

pub const REGISTER_SIZE: u8 = 2;

/// Alert Output Mode bit
/// This bit cannot be altered when either of the Lock bits are set (bit 6 and bit 7).
/// This bit can be programmed in Shutdown mode, but the Alert output will not assert or deassert.
#[derive(Debug, Clone, Copy, PartialEq, Eq, Structural)]
pub enum AlertMode {
    /// power-up default
    Comparator,
    Interrupt,
}

/// Alert Output Polarity bit
/// This bit cannot be altered when either of the Lock bits are set (bit 6 and bit 7).
/// This bit can be programmed in Shutdown mode, but the Alert output will not assert or deassert.
#[derive(Debug, Clone, Copy, PartialEq, Eq, Structural)]
pub enum AlertPolarity {
    /// power-up default; pull-up resistor required
    ActiveLow,
    ActiveHigh,
}

/// Alert Output Select bit
/// When the Alarm Window Lock bit is set, this bit cannot be altered until unlocked (bit 6).
/// This bit can be programmed in Shutdown mode, but the Alert output will not assert or deassert.
#[derive(Debug, Clone, Copy, PartialEq, Eq, Structural)]
pub enum AlertSelect {
    /// Alert output for the upper, lower and critical thresholds (power-up default)
    All,
    TCritOnly,
}

/// Alert Output Control bit
/// This bit can not be altered when either of the Lock bits are set (bit 6 and bit 7).
/// This bit can be programmed in Shutdown mode, but the Alert output will not assert or deassert.
#[derive(Debug, Clone, Copy, PartialEq, Eq, Structural)]
pub enum AlertControl {
    /// power-up default
    Disabled,
    Enabled,
}

/// Alert Output Status bit
/// This bit can not be set or cleared in Shutdown mode. However, if the Alert
/// output is configured as Interrupt mode, and the host controller clears the
/// interrupt while the device is in Shutdown mode, then this bit is cleared
/// with it.
#[derive(Debug, Clone, Copy, PartialEq, Eq, Structural)]
pub enum AlertStatus {
    /// Alert output is not asserted by the device (power-up default)
    NotAsserted,
    /// Alert output is asserted as a comparator/Interrupt or critical temperature output
    Asserted,
}

/// Interrupt Clear bit
/// This bit can not be set in Shutdown mode, but it can be cleared after the
/// device enters Shutdown mode.
#[derive(Debug, Clone, Copy, PartialEq, Eq, Structural)]
pub enum InterruptClear {
    /// No effect (power-up default)
    NoEffect,
    /// Clear interrupt output; when read, this bit returns to cleared
    ClearInterruptOutput,
}

/// Upper and lower alert window Lock bit
/// When enabled, this bit remains set, or locked, until cleared by a
/// Power-on Reset.
#[derive(Debug, Clone, Copy, PartialEq, Eq, Structural)]
pub enum WindowLock {
    /// upper and lower alert registers can be written (power-up default)
    Unlocked,
    /// upper and lower alert registers can not be written
    Locked,
}

/// Critical threshold Lock bit
/// When enabled, this bit remains set, or locked, until cleared by an
/// internal Reset.
#[derive(Debug, Clone, Copy, PartialEq, Eq, Structural)]
pub enum CriticalLock {
    /// critical alert register can be written (power-up default)
    Unlocked,
    /// critical alert register can not be written
    Locked,
}

/// In shutdown, all power-consuming activities are disabled, though all
/// registers can be written to or read. This bit cannot be set when either of
/// the Lock bits is set; it can however be cleared for continuous conversion
/// while locked.
#[derive(Debug, Clone, Copy, PartialEq, Eq, Structural)]
pub enum ShutdownMode {
    /// Continuous conversion (power-up default)
    Continuous,
    /// Shutdown (Low-Power mode)
    Shutdown,
}

/// Upper and lower alert window Limit Hysteresis bits
/// These bits can not be altered when either of the Lock bits are set (bit 6
/// and bit 7) and can be programmed in Shutdown mode.
#[derive(Debug, Clone, Copy, PartialEq, Eq, Structural)]
pub enum LimitHysteresis {
    Deg0_0C,
    Deg1_5C,
    Deg3_0C,
    Deg6_0C,
}

/// Capability of the configuration register: one getter and one setter per
/// flag field, each tied to exactly one bit of the 2-byte register.
pub trait Configuration: Read {
    /// The fixed pointer of the configuration register.
    fn get_register_ptr() -> (r: u8)
        ensures
            r == REGISTER_PTR,
    ;

    fn get_alert_mode(&self) -> (m: AlertMode)
        requires
            self.reg().wf(),
            self.reg().len == 2,
        ensures
            m == (if self.reg().bit(0) {
                AlertMode::Interrupt
            } else {
                AlertMode::Comparator
            }),
    ;

    fn set_alert_mode(&mut self, mode: AlertMode)
        requires
            old(self).reg().wf(),
            old(self).reg().len == 2,
        ensures
            final(self).reg() == old(self).reg().set_bit(0, mode == AlertMode::Interrupt),
    ;

    fn get_alert_polarity(&self) -> (m: AlertPolarity)
        requires
            self.reg().wf(),
            self.reg().len == 2,
        ensures
            m == (if self.reg().bit(1) {
                AlertPolarity::ActiveHigh
            } else {
                AlertPolarity::ActiveLow
            }),
    ;

    fn set_alert_polarity(&mut self, mode: AlertPolarity)
        requires
            old(self).reg().wf(),
            old(self).reg().len == 2,
        ensures
            final(self).reg() == old(self).reg().set_bit(1, mode == AlertPolarity::ActiveHigh),
    ;

    fn get_alert_select(&self) -> (m: AlertSelect)
        requires
            self.reg().wf(),
            self.reg().len == 2,
        ensures
            m == (if self.reg().bit(2) {
                AlertSelect::TCritOnly
            } else {
                AlertSelect::All
            }),
    ;

    fn set_alert_select(&mut self, mode: AlertSelect)
        requires
            old(self).reg().wf(),
            old(self).reg().len == 2,
        ensures
            final(self).reg() == old(self).reg().set_bit(2, mode == AlertSelect::TCritOnly),
    ;

    fn get_alert_control(&self) -> (m: AlertControl)
        requires
            self.reg().wf(),
            self.reg().len == 2,
        ensures
            m == (if self.reg().bit(3) {
                AlertControl::Enabled
            } else {
                AlertControl::Disabled
            }),
    ;

    fn set_alert_control(&mut self, mode: AlertControl)
        requires
            old(self).reg().wf(),
            old(self).reg().len == 2,
        ensures
            final(self).reg() == old(self).reg().set_bit(3, mode == AlertControl::Enabled),
    ;

    fn get_alert_status(&self) -> (m: AlertStatus)
        requires
            self.reg().wf(),
            self.reg().len == 2,
        ensures
            m == (if self.reg().bit(4) {
                AlertStatus::Asserted
            } else {
                AlertStatus::NotAsserted
            }),
    ;

    fn set_alert_status(&mut self, mode: AlertStatus)
        requires
            old(self).reg().wf(),
            old(self).reg().len == 2,
        ensures
            final(self).reg() == old(self).reg().set_bit(4, mode == AlertStatus::Asserted),
    ;

    fn get_interrupt_clear(&self) -> (m: InterruptClear)
        requires
            self.reg().wf(),
            self.reg().len == 2,
        ensures
            m == (if self.reg().bit(5) {
                InterruptClear::ClearInterruptOutput
            } else {
                InterruptClear::NoEffect
            }),
    ;

    fn set_interrupt_clear(&mut self, mode: InterruptClear)
        requires
            old(self).reg().wf(),
            old(self).reg().len == 2,
        ensures
            final(self).reg() == old(self).reg().set_bit(
                5,
                mode == InterruptClear::ClearInterruptOutput,
            ),
    ;

    fn get_window_lock(&self) -> (m: WindowLock)
        requires
            self.reg().wf(),
            self.reg().len == 2,
        ensures
            m == (if self.reg().bit(6) {
                WindowLock::Locked
            } else {
                WindowLock::Unlocked
            }),
    ;

    fn set_window_lock(&mut self, mode: WindowLock)
        requires
            old(self).reg().wf(),
            old(self).reg().len == 2,
        ensures
            final(self).reg() == old(self).reg().set_bit(6, mode == WindowLock::Locked),
    ;

    fn get_critical_lock(&self) -> (m: CriticalLock)
        requires
            self.reg().wf(),
            self.reg().len == 2,
        ensures
            m == (if self.reg().bit(7) {
                CriticalLock::Locked
            } else {
                CriticalLock::Unlocked
            }),
    ;

    fn set_critical_lock(&mut self, mode: CriticalLock)
        requires
            old(self).reg().wf(),
            old(self).reg().len == 2,
        ensures
            final(self).reg() == old(self).reg().set_bit(7, mode == CriticalLock::Locked),
    ;

    fn get_shutdown_mode(&self) -> (m: ShutdownMode)
        requires
            self.reg().wf(),
            self.reg().len == 2,
        ensures
            m == (if self.reg().bit(8) {
                ShutdownMode::Shutdown
            } else {
                ShutdownMode::Continuous
            }),
    ;

    fn set_shutdown_mode(&mut self, mode: ShutdownMode)
        requires
            old(self).reg().wf(),
            old(self).reg().len == 2,
        ensures
            final(self).reg() == old(self).reg().set_bit(8, mode == ShutdownMode::Shutdown),
    ;
}

/// A fresh, zeroed configuration register (pointer 0b0001, 2 bytes).
pub fn new() -> (r: Register)
    ensures
        r@.wf(),
        r@.ptr == REGISTER_PTR,
        r@.len == REGISTER_SIZE,
        r@.msb == 0,
        r@.lsb == 0,
{
    Register::new(REGISTER_PTR, REGISTER_SIZE)
}

impl Configuration for Register {
    fn get_register_ptr() -> (r: u8) {
        REGISTER_PTR
    }

    fn get_alert_mode(&self) -> (m: AlertMode) {
        if self.get_bit(0) {
            return AlertMode::Interrupt;
        }
        AlertMode::Comparator
    }

    fn set_alert_mode(&mut self, mode: AlertMode) {
        self.set_bit(0, mode == AlertMode::Interrupt);
    }

    fn get_alert_polarity(&self) -> (m: AlertPolarity) {
        if self.get_bit(1) {
            return AlertPolarity::ActiveHigh;
        }
        AlertPolarity::ActiveLow
    }

    fn set_alert_polarity(&mut self, mode: AlertPolarity) {
        self.set_bit(1, mode == AlertPolarity::ActiveHigh);
    }

    fn get_alert_select(&self) -> (m: AlertSelect) {
        if self.get_bit(2) {
            return AlertSelect::TCritOnly;
        }
        AlertSelect::All
    }

    fn set_alert_select(&mut self, mode: AlertSelect) {
        self.set_bit(2, mode == AlertSelect::TCritOnly);
    }

    fn get_alert_control(&self) -> (m: AlertControl) {
        if self.get_bit(3) {
            return AlertControl::Enabled;
        }
        AlertControl::Disabled
    }

    fn set_alert_control(&mut self, mode: AlertControl) {
        self.set_bit(3, mode == AlertControl::Enabled);
    }

    fn get_alert_status(&self) -> (m: AlertStatus) {
        if self.get_bit(4) {
            return AlertStatus::Asserted;
        }
        AlertStatus::NotAsserted
    }

    fn set_alert_status(&mut self, mode: AlertStatus) {
        self.set_bit(4, mode == AlertStatus::Asserted);
    }

    fn get_interrupt_clear(&self) -> (m: InterruptClear) {
        if self.get_bit(5) {
            return InterruptClear::ClearInterruptOutput;
        }
        InterruptClear::NoEffect
    }

    fn set_interrupt_clear(&mut self, mode: InterruptClear) {
        self.set_bit(5, mode == InterruptClear::ClearInterruptOutput);
    }

    fn get_window_lock(&self) -> (m: WindowLock) {
        if self.get_bit(6) {
            return WindowLock::Locked;
        }
        WindowLock::Unlocked
    }

    fn set_window_lock(&mut self, mode: WindowLock) {
        self.set_bit(6, mode == WindowLock::Locked);
    }

    fn get_critical_lock(&self) -> (m: CriticalLock) {
        if self.get_bit(7) {
            return CriticalLock::Locked;
        }
        CriticalLock::Unlocked
    }

    fn set_critical_lock(&mut self, mode: CriticalLock) {
        self.set_bit(7, mode == CriticalLock::Locked);
    }

    fn get_shutdown_mode(&self) -> (m: ShutdownMode) {
        if self.get_bit(8) {
            return ShutdownMode::Shutdown;
        }
        ShutdownMode::Continuous
    }

    fn set_shutdown_mode(&mut self, mode: ShutdownMode) {
        self.set_bit(8, mode == ShutdownMode::Shutdown);
    }
}

} // verus!
