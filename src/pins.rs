//! The physical pins of the part that this library drives, and the
//! once-only tokens through which each of them is first handed out.

use core::marker::PhantomData;
use vstd::prelude::*;
use crate::gpio::{PinId, PinLoc};
use crate::regs::Port;
use crate::sealed::Sealed;

verus! {

/// Pin 0 of port A.
pub struct A0;

impl Sealed for A0 {}

impl PinId for A0 {
    open spec fn spec_loc() -> PinLoc {
        PinLoc { port: Port::A, number: 0 }
    }

    fn loc() -> (l: PinLoc) {
        PinLoc { port: Port::A, number: 0 }
    }
}

/// Pin 7 of port B.
pub struct B7;

impl Sealed for B7 {}

impl PinId for B7 {
    open spec fn spec_loc() -> PinLoc {
        PinLoc { port: Port::B, number: 7 }
    }

    fn loc() -> (l: PinLoc) {
        PinLoc { port: Port::B, number: 7 }
    }
}

/// Pin 8 of port B.
pub struct B8;

impl Sealed for B8 {}

impl PinId for B8 {
    open spec fn spec_loc() -> PinLoc {
        PinLoc { port: Port::B, number: 8 }
    }

    fn loc() -> (l: PinLoc) {
        PinLoc { port: Port::B, number: 8 }
    }
}

/// Pin 11 of port B.
pub struct B11;

impl Sealed for B11 {}

impl PinId for B11 {
    open spec fn spec_loc() -> PinLoc {
        PinLoc { port: Port::B, number: 11 }
    }

    fn loc() -> (l: PinLoc) {
        PinLoc { port: Port::B, number: 11 }
    }
}

/// Pin 13 of port B.
pub struct B13;

impl Sealed for B13 {}

impl PinId for B13 {
    open spec fn spec_loc() -> PinLoc {
        PinLoc { port: Port::B, number: 13 }
    }

    fn loc() -> (l: PinLoc) {
        PinLoc { port: Port::B, number: 13 }
    }
}

/// Pin 14 of port B.
pub struct B14;

impl Sealed for B14 {}

impl PinId for B14 {
    open spec fn spec_loc() -> PinLoc {
        PinLoc { port: Port::B, number: 14 }
    }

    fn loc() -> (l: PinLoc) {
        PinLoc { port: Port::B, number: 14 }
    }
}

/// Pin 0 of port C.
pub struct C0;

impl Sealed for C0 {}

impl PinId for C0 {
    open spec fn spec_loc() -> PinLoc {
        PinLoc { port: Port::C, number: 0 }
    }

    fn loc() -> (l: PinLoc) {
        PinLoc { port: Port::C, number: 0 }
    }
}

/// Pin 1 of port C.
pub struct C1;

impl Sealed for C1 {}

impl PinId for C1 {
    open spec fn spec_loc() -> PinLoc {
        PinLoc { port: Port::C, number: 1 }
    }

    fn loc() -> (l: PinLoc) {
        PinLoc { port: Port::C, number: 1 }
    }
}

/// Pin 14 of port C.
pub struct C14;

impl Sealed for C14 {}

impl PinId for C14 {
    open spec fn spec_loc() -> PinLoc {
        PinLoc { port: Port::C, number: 14 }
    }

    fn loc() -> (l: PinLoc) {
        PinLoc { port: Port::C, number: 14 }
    }
}

/// Pin 15 of port C.
pub struct C15;

impl Sealed for C15 {}

impl PinId for C15 {
    open spec fn spec_loc() -> PinLoc {
        PinLoc { port: Port::C, number: 15 }
    }

    fn loc() -> (l: PinLoc) {
        PinLoc { port: Port::C, number: 15 }
    }
}

/// Pin 12 of port E.
pub struct E12;

impl Sealed for E12 {}

impl PinId for E12 {
    open spec fn spec_loc() -> PinLoc {
        PinLoc { port: Port::E, number: 12 }
    }

    fn loc() -> (l: PinLoc) {
        PinLoc { port: Port::E, number: 12 }
    }
}

/// Pin 13 of port E.
pub struct E13;

impl Sealed for E13 {}

impl PinId for E13 {
    open spec fn spec_loc() -> PinLoc {
        PinLoc { port: Port::E, number: 13 }
    }

    fn loc() -> (l: PinLoc) {
        PinLoc { port: Port::E, number: 13 }
    }
}

/// Pin 0 of port F.
pub struct F0;

impl Sealed for F0 {}

impl PinId for F0 {
    open spec fn spec_loc() -> PinLoc {
        PinLoc { port: Port::F, number: 0 }
    }

    fn loc() -> (l: PinLoc) {
        PinLoc { port: Port::F, number: 0 }
    }
}

/// Pin 1 of port F.
pub struct F1;

impl Sealed for F1 {}

impl PinId for F1 {
    open spec fn spec_loc() -> PinLoc {
        PinLoc { port: Port::F, number: 1 }
    }

    fn loc() -> (l: PinLoc) {
        PinLoc { port: Port::F, number: 1 }
    }
}

/// Pin 2 of port F.
pub struct F2;

impl Sealed for F2 {}

impl PinId for F2 {
    open spec fn spec_loc() -> PinLoc {
        PinLoc { port: Port::F, number: 2 }
    }

    fn loc() -> (l: PinLoc) {
        PinLoc { port: Port::F, number: 2 }
    }
}

/// The right to configure physical pin `P` for the first time. There is one
/// for each pin, made only by `GPIO::take`, and configuring the pin consumes
/// it.
pub struct PinToken<P> {
    _p: PhantomData<P>,
}

/// One token for each physical pin.
pub struct Pins {
    pub a0: PinToken<A0>,
    pub b7: PinToken<B7>,
    pub b8: PinToken<B8>,
    pub b11: PinToken<B11>,
    pub b13: PinToken<B13>,
    pub b14: PinToken<B14>,
    pub c0: PinToken<C0>,
    pub c1: PinToken<C1>,
    pub c14: PinToken<C14>,
    pub c15: PinToken<C15>,
    pub e12: PinToken<E12>,
    pub e13: PinToken<E13>,
    pub f0: PinToken<F0>,
    pub f1: PinToken<F1>,
    pub f2: PinToken<F2>,
}

impl Pins {
    /// The tokens of all pins; only the GPIO block hands them out.
    pub(crate) fn new() -> Pins {
        Pins {
            a0: PinToken { _p: PhantomData },
            b7: PinToken { _p: PhantomData },
            b8: PinToken { _p: PhantomData },
            b11: PinToken { _p: PhantomData },
            b13: PinToken { _p: PhantomData },
            b14: PinToken { _p: PhantomData },
            c0: PinToken { _p: PhantomData },
            c1: PinToken { _p: PhantomData },
            c14: PinToken { _p: PhantomData },
            c15: PinToken { _p: PhantomData },
            e12: PinToken { _p: PhantomData },
            e13: PinToken { _p: PhantomData },
            f0: PinToken { _p: PhantomData },
            f1: PinToken { _p: PhantomData },
            f2: PinToken { _p: PhantomData },
        }
    }
}

} // verus!
