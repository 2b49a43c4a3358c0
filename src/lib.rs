//! Typestate GPIO configuration and a count-down real-time counter for an
//! EFM32 Happy Gecko part, driven against register models.

pub mod clock;
pub mod gpio;
pub mod modes;
pub mod pins;
pub mod regs;
pub mod rtc;
mod sealed;
