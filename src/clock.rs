//! A model of the clock-control block: the enables and the prescaler that the
//! GPIO block and the real-time counter depend on.

use vstd::prelude::*;

verus! {

/// The clock-control settings this library touches.
#[derive(Clone, Copy, PartialEq, Eq, Structural, Debug)]
pub struct Cmu {
    /// Clock of the GPIO block (HFPERCLKEN0.GPIO).
    pub gpio_clock: bool,
    /// Low-frequency RC oscillator running (OSCENCMD.LFRCOEN).
    pub lfrco_enabled: bool,
    /// Clock of the low-energy peripherals (HFCORECLKEN0.LE).
    pub le_clock: bool,
    /// Clock of the real-time counter (LFACLKEN0.RTC).
    pub rtc_clock: bool,
    /// Prescaler exponent of the real-time counter (LFAPRESC0.RTC).
    pub rtc_presc: u32,
}

impl Cmu {
    /// Every clock off, prescaler at division by one.
    pub fn new() -> (c: Cmu)
        ensures
            !c.gpio_clock,
            !c.lfrco_enabled,
            !c.le_clock,
            !c.rtc_clock,
            c.rtc_presc == 0,
    {
        Cmu { gpio_clock: false, lfrco_enabled: false, le_clock: false, rtc_clock: false, rtc_presc: 0 }
    }
}

} // verus!
