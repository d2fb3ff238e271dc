//! Low-power modes: the PWR_CR1 value that each entry writes before the core
//! waits for an interrupt.
use vstd::prelude::*;
use crate::pwr::{self, LowPowerMode};
use crate::regs;

verus! {

/// CR1 of `sleep`: the low-power mode selection cleared.
pub fn sleep(cr1: u32) -> (r: u32)
    ensures
        r == regs::with_field(cr1, 0, 3, 0),
{
    pwr::enter_sleep_mode(cr1)
}

/// CR1 of `stop`: the low-power mode selection set to `mode`.
pub fn stop(mode: LowPowerMode, cr1: u32) -> (r: u32)
    ensures
        r == regs::with_field(cr1, 0, 3, mode.value()),
{
    pwr::enter_stop_mode(mode, cr1)
}

/// CR1 of `standby`: Standby selected.
pub fn standby(cr1: u32) -> (r: u32)
    ensures
        r == regs::with_field(cr1, 0, 3, LowPowerMode::Standby.value()),
{
    pwr::enter_standby_mode(cr1)
}

/// CR1 of `shutdown`: Shutdown selected.
pub fn shutdown(cr1: u32) -> (r: u32)
    ensures
        r == regs::with_field(cr1, 0, 3, LowPowerMode::Shutdown.value()),
{
    pwr::enter_shutdown_mode(cr1)
}

} // verus!
