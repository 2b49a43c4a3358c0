//! Pins whose electrical mode is part of their type.
//!
//! A `Pin<P, M>` stands for physical pin `P` configured in mode `M`. It is
//! obtained once from `GPIO`, by consuming the pin's token, and changed only
//! by consuming it, so a handle to a mode the pin has left can no longer be
//! used. Output operations exist only where `M` is an output mode.

use core::marker::PhantomData;
use vstd::prelude::*;
use crate::clock::Cmu;
use crate::pins::{PinToken, Pins};
use crate::regs::{GpioRegs, Port, Reg, RegKind, RegWrite, pin_mask, set_field, field_of, bit_of, write_effect};
use crate::sealed::Sealed;

verus! {

/// Every electrical mode a pin can be switched to.
#[derive(Clone, Copy, PartialEq, Eq, Structural, Debug)]
pub enum Mode {
    Disabled,
    DisabledPullUp,
    NoFilter,
    WithFilter,
    PullDown,
    PullUp,
    PullDownWithFilter,
    PullupWithFilter,
    PushPull,
    PushPullDrive,
    WiredOr,
    WiredOrPullDown,
    WiredAnd,
    WiredAndWithFilter,
    WiredAndPullUp,
    WiredAndPullUpWithFilter,
    WiredAndDrive,
    WiredAndDriveWithFilter,
    WiredAndDrivePullUp,
    WiredAndDrivePullUpWithFilter,
}

/// The value of a pin's four-bit mode field for mode `m`.
pub open spec fn mode_code(m: Mode) -> u32 {
    match m {
        Mode::Disabled => 0,
        Mode::DisabledPullUp => 0,
        Mode::NoFilter => 1,
        Mode::WithFilter => 1,
        Mode::PullDown => 2,
        Mode::PullUp => 2,
        Mode::PullDownWithFilter => 3,
        Mode::PullupWithFilter => 3,
        Mode::PushPull => 4,
        Mode::PushPullDrive => 5,
        Mode::WiredOr => 6,
        Mode::WiredOrPullDown => 7,
        Mode::WiredAnd => 8,
        Mode::WiredAndWithFilter => 9,
        Mode::WiredAndPullUp => 10,
        Mode::WiredAndPullUpWithFilter => 11,
        Mode::WiredAndDrive => 12,
        Mode::WiredAndDriveWithFilter => 13,
        Mode::WiredAndDrivePullUp => 14,
        Mode::WiredAndDrivePullUpWithFilter => 15,
    }
}

/// Whether the pin drives its line in mode `m`.
pub open spec fn is_output(m: Mode) -> bool {
    mode_code(m) >= 4
}

impl Mode {
    /// The mode field value for this mode.
    pub fn code(self) -> (c: u32)
        ensures
            c == mode_code(self),
            c < 16,
    {
        match self {
            Mode::Disabled => 0,
            Mode::DisabledPullUp => 0,
            Mode::NoFilter => 1,
            Mode::WithFilter => 1,
            Mode::PullDown => 2,
            Mode::PullUp => 2,
            Mode::PullDownWithFilter => 3,
            Mode::PullupWithFilter => 3,
            Mode::PushPull => 4,
            Mode::PushPullDrive => 5,
            Mode::WiredOr => 6,
            Mode::WiredOrPullDown => 7,
            Mode::WiredAnd => 8,
            Mode::WiredAndWithFilter => 9,
            Mode::WiredAndPullUp => 10,
            Mode::WiredAndPullUpWithFilter => 11,
            Mode::WiredAndDrive => 12,
            Mode::WiredAndDriveWithFilter => 13,
            Mode::WiredAndDrivePullUp => 14,
            Mode::WiredAndDrivePullUpWithFilter => 15,
        }
    }
}

/// Where a physical pin sits: its port and its number within the port.
#[derive(Clone, Copy, PartialEq, Eq, Structural, Debug)]
pub struct PinLoc {
    pub port: Port,
    pub number: u32,
}

/// The register that holds the mode field of the pin at `loc`.
pub open spec fn mode_reg(loc: PinLoc) -> Reg {
    Reg { port: loc.port, kind: if loc.number < 8 { RegKind::ModeL } else { RegKind::ModeH } }
}

/// The port's data-out register of the pin at `loc`.
pub open spec fn dout_reg(loc: PinLoc) -> Reg {
    Reg { port: loc.port, kind: RegKind::Dout }
}

/// The write that puts the mode field of the pin at `loc` to mode `m`, given
/// the value its mode register held before.
pub open spec fn mode_write(loc: PinLoc, m: Mode, before: u32) -> RegWrite {
    RegWrite { reg: mode_reg(loc), value: set_field(before, loc.number % 8, mode_code(m)) }
}

/// The write that drives the pin at `loc` high.
pub open spec fn set_write(loc: PinLoc) -> RegWrite {
    RegWrite { reg: Reg { port: loc.port, kind: RegKind::DoutSet }, value: pin_mask(loc.number) }
}

/// The write that drives the pin at `loc` low.
pub open spec fn clear_write(loc: PinLoc) -> RegWrite {
    RegWrite { reg: Reg { port: loc.port, kind: RegKind::DoutClr }, value: pin_mask(loc.number) }
}

/// The writes, in order, that switch the pin at `loc` to mode `m`: the mode
/// field alone, except that the disabled pull-up then also sets the pin's
/// data-out bit, its pull-up being the output latch driven high.
pub open spec fn transition_writes(loc: PinLoc, m: Mode, regs: GpioRegs) -> Seq<RegWrite> {
    let w = mode_write(loc, m, regs.value_of(mode_reg(loc)));
    if m == Mode::DisabledPullUp {
        seq![w, set_write(loc)]
    } else {
        seq![w]
    }
}

/// The value of register `q` after the writes `ws` on `before`.
pub open spec fn value_after(before: GpioRegs, ws: Seq<RegWrite>, q: Reg) -> u32
    decreases ws.len(),
{
    if ws.len() == 0 {
        before.value_of(q)
    } else {
        write_effect(ws.last(), q, value_after(before, ws.drop_last(), q))
    }
}

/// `after` is `before` with exactly the writes `ws` made on it, in order.
pub open spec fn applied(before: GpioRegs, after: GpioRegs, ws: Seq<RegWrite>) -> bool {
    &&& after.wf()
    &&& after.history() == before.history() + ws
    &&& forall|q: Reg| #[trigger] after.value_of(q) == value_after(before, ws, q)
}

proof fn lemma_value_after_one(before: GpioRegs, w: RegWrite, q: Reg)
    ensures
        value_after(before, seq![w], q) == write_effect(w, q, before.value_of(q)),
{
    assert(seq![w].drop_last() =~= Seq::<RegWrite>::empty());
    assert(seq![w].last() == w);
    assert(value_after(before, Seq::<RegWrite>::empty(), q) == before.value_of(q));
}

proof fn lemma_value_after_two(before: GpioRegs, w: RegWrite, v: RegWrite, q: Reg)
    ensures
        value_after(before, seq![w, v], q) == write_effect(
            v,
            q,
            write_effect(w, q, before.value_of(q)),
        ),
{
    assert(seq![w, v].drop_last() =~= seq![w]);
    assert(seq![w, v].last() == v);
    lemma_value_after_one(before, w, q);
}

/// A physical pin: a fixed place in a fixed port.
pub trait PinId: Sealed {
    spec fn spec_loc() -> PinLoc;

    fn loc() -> (l: PinLoc)
        ensures
            l == Self::spec_loc(),
            l.number < 16,
    ;
}

/// A mode tag: a type that stands for one electrical mode.
pub trait PinMode: Sealed {
    spec fn spec_mode() -> Mode;

    fn mode() -> (m: Mode)
        ensures
            m == Self::spec_mode(),
    ;
}

/// A mode tag of a mode in which the pin drives its line.
pub trait OutputMode: PinMode {
    proof fn lemma_drives()
        ensures
            is_output(Self::spec_mode()),
    ;
}

/// Physical pin `P` in mode `M`.
pub struct Pin<P, M> {
    _p: PhantomData<P>,
    _m: PhantomData<M>,
}

/// Writes the registers that put the pin at `loc` in mode `m`.
fn configure(regs: &mut GpioRegs, loc: PinLoc, m: Mode)
    requires
        old(regs).wf(),
        loc.number < 16,
    ensures
        applied(*old(regs), *final(regs), transition_writes(loc, m, *old(regs))),
{
    let ghost before = *regs;
    let ghost w = mode_write(loc, m, before.value_of(mode_reg(loc)));
    let kind = if loc.number < 8 { RegKind::ModeL } else { RegKind::ModeH };
    regs.modify_field(Reg { port: loc.port, kind }, loc.number % 8, m.code());
    if m == Mode::DisabledPullUp {
        regs.write(Reg { port: loc.port, kind: RegKind::DoutSet }, 1u32 << loc.number);
        assert forall|q: Reg| #[trigger] regs.value_of(q) == value_after(
            before,
            transition_writes(loc, m, before),
            q,
        ) by {
            lemma_value_after_two(before, w, set_write(loc), q);
        }
    } else {
        assert forall|q: Reg| #[trigger] regs.value_of(q) == value_after(
            before,
            transition_writes(loc, m, before),
            q,
        ) by {
            lemma_value_after_one(before, w, q);
        }
    }
    assert(regs.history() =~= before.history() + transition_writes(loc, m, before));
}

impl<P: PinId, M: PinMode> Pin<P, M> {
    /// Switches the pin to mode `N`, consuming the handle to its old mode.
    pub fn into_mode<N: PinMode>(self, regs: &mut GpioRegs) -> (p: Pin<P, N>)
        requires
            old(regs).wf(),
        ensures
            applied(*old(regs), *final(regs), transition_writes(P::spec_loc(), N::spec_mode(), *old(regs))),
    {
        configure(regs, P::loc(), N::mode());
        Pin { _p: PhantomData, _m: PhantomData }
    }
}

impl<P: PinId, M: OutputMode> Pin<P, M> {
    /// Drives the pin high: its bit alone, written to the port's data-out-set
    /// register, which sets that bit of the data-out register.
    pub fn set_high(&mut self, regs: &mut GpioRegs)
        requires
            old(regs).wf(),
        ensures
            applied(*old(regs), *final(regs), seq![set_write(P::spec_loc())]),
            final(regs).value_of(dout_reg(P::spec_loc())) == old(regs).value_of(
                dout_reg(P::spec_loc()),
            ) | pin_mask(P::spec_loc().number),
    {
        let loc = P::loc();
        let ghost before = *regs;
        regs.write(Reg { port: loc.port, kind: RegKind::DoutSet }, 1u32 << loc.number);
        assert(regs.history() =~= before.history() + seq![set_write(loc)]);
        assert forall|q: Reg| #[trigger] regs.value_of(q) == value_after(before, seq![set_write(loc)], q) by {
            lemma_value_after_one(before, set_write(loc), q);
        }
    }

    /// Drives the pin low: its bit alone, written to the port's
    /// data-out-clear register, which clears that bit of the data-out
    /// register.
    pub fn set_low(&mut self, regs: &mut GpioRegs)
        requires
            old(regs).wf(),
        ensures
            applied(*old(regs), *final(regs), seq![clear_write(P::spec_loc())]),
            final(regs).value_of(dout_reg(P::spec_loc())) == old(regs).value_of(
                dout_reg(P::spec_loc()),
            ) & !pin_mask(P::spec_loc().number),
    {
        let loc = P::loc();
        let ghost before = *regs;
        regs.write(Reg { port: loc.port, kind: RegKind::DoutClr }, 1u32 << loc.number);
        assert(regs.history() =~= before.history() + seq![clear_write(loc)]);
        assert forall|q: Reg| #[trigger] regs.value_of(q) == value_after(before, seq![clear_write(loc)], q) by {
            lemma_value_after_one(before, clear_write(loc), q);
        }
    }
}

/// A pin in a given mode that `GPIO::split` can hand out.
pub trait GPIOPinSplitter {
    type GPIOPin;

    /// The physical pin whose token is consumed.
    type Id;

    /// The physical pin handed out.
    spec fn target_loc() -> PinLoc;

    /// The mode it is put in.
    spec fn target_mode() -> Mode;

    /// Puts the pin in its mode, consuming its token, and returns the handle
    /// to it.
    fn split(gpio: &GPIO, token: PinToken<Self::Id>, regs: &mut GpioRegs) -> (p: Self::GPIOPin)
        requires
            old(regs).wf(),
        ensures
            applied(
                *old(regs),
                *final(regs),
                transition_writes(Self::target_loc(), Self::target_mode(), *old(regs)),
            ),
    ;
}

impl<P: PinId, M: PinMode> GPIOPinSplitter for Pin<P, M> {
    type GPIOPin = Pin<P, M>;

    type Id = P;

    open spec fn target_loc() -> PinLoc {
        P::spec_loc()
    }

    open spec fn target_mode() -> Mode {
        M::spec_mode()
    }

    fn split(gpio: &GPIO, token: PinToken<P>, regs: &mut GpioRegs) -> (p: Pin<P, M>) {
        configure(regs, P::loc(), M::mode());
        Pin { _p: PhantomData, _m: PhantomData }
    }
}

/// The GPIO block with its clock running; the one source of pins.
pub struct GPIO {
    _clocked: (),
}

impl GPIO {
    /// Turns on the clock of the GPIO block and returns the block with the
    /// token of each of its pins. The block is taken once: its clock must
    /// still be off.
    pub fn take(cmu: &mut Cmu) -> (r: (GPIO, Pins))
        requires
            !old(cmu).gpio_clock,
        ensures
            *final(cmu) == (Cmu { gpio_clock: true, ..*old(cmu) }),
    {
        cmu.gpio_clock = true;
        (GPIO { _clocked: () }, Pins::new())
    }

    /// Hands out pin `MODE::GPIOPin`, put in its mode, for the pin's token.
    pub fn split<MODE: GPIOPinSplitter>(&self, token: PinToken<MODE::Id>, regs: &mut GpioRegs) -> (p:
        MODE::GPIOPin)
        requires
            old(regs).wf(),
        ensures
            applied(
                *old(regs),
                *final(regs),
                transition_writes(MODE::target_loc(), MODE::target_mode(), *old(regs)),
            ),
    {
        MODE::split(self, token, regs)
    }
}

} // verus!

verus! {

/// Replacing the mode field in one slot stores exactly the given code there
/// and leaves every other slot of the register as it was.
pub proof fn law_mode_field_exact(v: u32, slot: u32, code: u32)
    requires
        slot < 8,
        code < 16,
    ensures
        field_of(set_field(v, slot, code), slot) == code,
        forall|other: u32|
            other < 8 && other != slot ==> #[trigger] field_of(set_field(v, slot, code), other)
                == field_of(v, other),
{
    let s: u32 = (4 * slot) as u32;
    assert((((v & !(0xfu32 << s)) | (code << s)) >> s) & 0xfu32 == code) by (bit_vector)
        requires
            s < 32,
            s % 4 == 0,
            code < 16,
    ;
    assert forall|other: u32| other < 8 && other != slot implies #[trigger] field_of(
        set_field(v, slot, code),
        other,
    ) == field_of(v, other) by {
        let t: u32 = (4 * other) as u32;
        assert((((v & !(0xfu32 << s)) | (code << s)) >> t) & 0xfu32 == (v >> t) & 0xfu32)
            by (bit_vector)
            requires
                s < 32,
                t < 32,
                s % 4 == 0,
                t % 4 == 0,
                s != t,
                code < 16,
        ;
    }
}

/// A pin's bit in a port-wide data register is its own: setting it through
/// the pin's mask sets that bit, clearing clears it, and both leave every
/// other pin's bit as it was; the mask itself holds no other pin's bit.
pub proof fn law_pin_mask_own_bit(d: u32, n: u32, k: u32)
    requires
        n < 16,
        k < 16,
    ensures
        bit_of(pin_mask(n), n),
        bit_of(d | pin_mask(n), n),
        !bit_of(d & !pin_mask(n), n),
        k != n ==> !bit_of(pin_mask(n), k),
        k != n ==> bit_of(d | pin_mask(n), k) == bit_of(d, k),
        k != n ==> bit_of(d & !pin_mask(n), k) == bit_of(d, k),
{
    assert(((1u32 << n) >> n) & 1u32 == 1u32) by (bit_vector)
        requires
            n < 32,
    ;
    assert(((d | (1u32 << n)) >> n) & 1u32 == 1u32) by (bit_vector)
        requires
            n < 32,
    ;
    assert(((d & !(1u32 << n)) >> n) & 1u32 == 0u32) by (bit_vector)
        requires
            n < 32,
    ;
    if k != n {
        assert(((1u32 << n) >> k) & 1u32 == 0u32) by (bit_vector)
            requires
                n < 32,
                k < 32,
                n != k,
        ;
        assert(((d | (1u32 << n)) >> k) & 1u32 == (d >> k) & 1u32) by (bit_vector)
            requires
                n < 32,
                k < 32,
                n != k,
        ;
        assert(((d & !(1u32 << n)) >> k) & 1u32 == (d >> k) & 1u32) by (bit_vector)
            requires
                n < 32,
                k < 32,
                n != k,
        ;
    }
}

/// A transition of the pin at `loc` to mode `m` leaves the pin's mode field
/// holding the code of `m` and every other field of that register unchanged.
/// Only the disabled pull-up also sets the pin's data-out bit; every other
/// register of the block keeps its value.
pub proof fn law_transition_mode_field(loc: PinLoc, m: Mode, before: GpioRegs, after: GpioRegs)
    requires
        loc.number < 16,
        applied(before, after, transition_writes(loc, m, before)),
    ensures
        field_of(after.value_of(mode_reg(loc)), loc.number % 8) == mode_code(m),
        forall|other: u32|
            other < 8 && other != loc.number % 8 ==> #[trigger] field_of(
                after.value_of(mode_reg(loc)),
                other,
            ) == field_of(before.value_of(mode_reg(loc)), other),
        m == Mode::DisabledPullUp ==> after.value_of(dout_reg(loc)) == before.value_of(
            dout_reg(loc),
        ) | pin_mask(loc.number),
        m == Mode::DisabledPullUp ==> after.value_of(set_write(loc).reg) == pin_mask(loc.number),
        forall|q: Reg|
            q != mode_reg(loc) && (m == Mode::DisabledPullUp ==> q != dout_reg(loc) && q
                != set_write(loc).reg) ==> #[trigger] after.value_of(q) == before.value_of(q),
{
    let mr = mode_reg(loc);
    let w = mode_write(loc, m, before.value_of(mr));
    law_mode_field_exact(before.value_of(mr), loc.number % 8, mode_code(m));
    if m == Mode::DisabledPullUp {
        lemma_value_after_two(before, w, set_write(loc), mr);
        lemma_value_after_two(before, w, set_write(loc), dout_reg(loc));
        lemma_value_after_two(before, w, set_write(loc), set_write(loc).reg);
        assert forall|q: Reg|
            q != mode_reg(loc) && q != dout_reg(loc) && q != set_write(loc).reg implies
            #[trigger] after.value_of(q) == before.value_of(q) by {
            lemma_value_after_two(before, w, set_write(loc), q);
        }
    } else {
        lemma_value_after_one(before, w, mr);
        assert forall|q: Reg| q != mode_reg(loc) implies #[trigger] after.value_of(q)
            == before.value_of(q) by {
            lemma_value_after_one(before, w, q);
        }
    }
}

/// Disabling the pin at `loc` with pull-up makes exactly two writes: first the
/// mode field to the disabled code, then the pin's bit to data-out-set, which
/// drives the pin's output latch high.
pub proof fn law_disabled_pull_up_two_writes(loc: PinLoc, before: GpioRegs, after: GpioRegs)
    requires
        loc.number < 16,
        applied(before, after, transition_writes(loc, Mode::DisabledPullUp, before)),
    ensures
        after.history().len() == before.history().len() + 2,
        after.history()[before.history().len() as int] == mode_write(
            loc,
            Mode::Disabled,
            before.value_of(mode_reg(loc)),
        ),
        after.history()[before.history().len() + 1int] == (RegWrite {
            reg: Reg { port: loc.port, kind: RegKind::DoutSet },
            value: pin_mask(loc.number),
        }),
        bit_of(after.value_of(dout_reg(loc)), loc.number),
{
    law_transition_mode_field(loc, Mode::DisabledPullUp, before, after);
    law_pin_mask_own_bit(before.value_of(dout_reg(loc)), loc.number, loc.number);
}

/// Driving a pin high and then low writes the data-out-set register and then
/// the data-out-clear register, two different registers, with the pin's bit,
/// and never writes the data-out register itself; afterwards the pin's
/// data-out bit is clear and every other bit of it is as it was.
pub proof fn law_set_then_clear(loc: PinLoc, r0: GpioRegs, r1: GpioRegs, r2: GpioRegs)
    requires
        loc.number < 16,
        applied(r0, r1, seq![set_write(loc)]),
        applied(r1, r2, seq![clear_write(loc)]),
    ensures
        r2.history() == r0.history() + seq![set_write(loc), clear_write(loc)],
        set_write(loc).reg != clear_write(loc).reg,
        set_write(loc).reg.kind == RegKind::DoutSet,
        clear_write(loc).reg.kind == RegKind::DoutClr,
        !bit_of(r2.value_of(dout_reg(loc)), loc.number),
        forall|k: u32|
            k < 16 && k != loc.number ==> #[trigger] bit_of(r2.value_of(dout_reg(loc)), k)
                == bit_of(r0.value_of(dout_reg(loc)), k),
{
    let d = dout_reg(loc);
    assert(r2.history() =~= r0.history() + seq![set_write(loc), clear_write(loc)]);
    lemma_value_after_one(r0, set_write(loc), d);
    lemma_value_after_one(r1, clear_write(loc), d);
    let d0 = r0.value_of(d);
    let d1 = r1.value_of(d);
    law_pin_mask_own_bit(d1, loc.number, loc.number);
    assert forall|k: u32| k < 16 && k != loc.number implies #[trigger] bit_of(r2.value_of(d), k)
        == bit_of(d0, k) by {
        law_pin_mask_own_bit(d0, loc.number, k);
        law_pin_mask_own_bit(d1, loc.number, k);
    }
}

/// Every mode that output operations are offered for drives the pin.
pub proof fn law_output_modes_drive<M: OutputMode>()
    ensures
        is_output(M::spec_mode()),
{
    M::lemma_drives();
}

/// Two different pins of one port never touch each other's bits: driving one
/// writes no bit of the other to data-out-set or data-out-clear, and
/// switching one's mode leaves the other's mode field and data-out bit as
/// they were.
pub proof fn law_pins_keep_to_own_bits(
    a: PinLoc,
    b: PinLoc,
    m: Mode,
    before: GpioRegs,
    after: GpioRegs,
)
    requires
        a.port == b.port,
        a.number != b.number,
        a.number < 16,
        b.number < 16,
        applied(before, after, transition_writes(a, m, before)),
    ensures
        bit_of(set_write(a).value, a.number),
        !bit_of(set_write(a).value, b.number),
        bit_of(clear_write(a).value, a.number),
        !bit_of(clear_write(a).value, b.number),
        field_of(after.value_of(mode_reg(b)), b.number % 8) == field_of(
            before.value_of(mode_reg(b)),
            b.number % 8,
        ),
        bit_of(after.value_of(dout_reg(b)), b.number) == bit_of(
            before.value_of(dout_reg(b)),
            b.number,
        ),
{
    law_pin_mask_own_bit(before.value_of(dout_reg(a)), a.number, b.number);
    law_transition_mode_field(a, m, before, after);
    if m != Mode::DisabledPullUp {
        assert(dout_reg(b) != mode_reg(a));
    }
    if mode_reg(b) == mode_reg(a) {
        assert(b.number % 8 != a.number % 8);
    } else {
        assert(mode_reg(b) != set_write(a).reg);
    }
}

} // verus!
