//! A count-down timer on the real-time counter, clocked from the 32768 Hz
//! low-frequency RC oscillator.
//!
//! `RTC` holds the counter's registers (CTRL, CNT, COMP0) as plain values;
//! setting it up also changes the clock-control model.

use vstd::prelude::*;
use vstd::arithmetic::power2::{pow2, lemma2_to64, lemma_pow2_pos, lemma_pow2_strictly_increases};
use vstd::bits::lemma_u32_shl_is_mul;
use crate::clock::Cmu;

verus! {

/// Frequency of the counter's clock before the prescaler.
pub const BASE_CLOCK: u32 = 32768;

/// Enable bit of the CTRL register.
pub const CTRL_EN: u32 = 1;

/// Divider applied to the counter's clock: division by a power of two.
#[derive(Clone, Copy, PartialEq, Eq, Structural, Debug)]
pub enum Prescaler {
    DIV1,
    DIV2,
    DIV4,
    DIV8,
    DIV16,
    DIV32,
    DIV64,
    DIV128,
    DIV256,
    DIV512,
    DIV1024,
    DIV2048,
    DIV4096,
    DIV8192,
    DIV16384,
    DIV32768,
}

/// The exponent of the division, as written to the prescaler field.
pub open spec fn presc_bits(p: Prescaler) -> u32 {
    match p {
        Prescaler::DIV1 => 0,
        Prescaler::DIV2 => 1,
        Prescaler::DIV4 => 2,
        Prescaler::DIV8 => 3,
        Prescaler::DIV16 => 4,
        Prescaler::DIV32 => 5,
        Prescaler::DIV64 => 6,
        Prescaler::DIV128 => 7,
        Prescaler::DIV256 => 8,
        Prescaler::DIV512 => 9,
        Prescaler::DIV1024 => 10,
        Prescaler::DIV2048 => 11,
        Prescaler::DIV4096 => 12,
        Prescaler::DIV8192 => 13,
        Prescaler::DIV16384 => 14,
        Prescaler::DIV32768 => 15,
    }
}

impl Prescaler {
    /// The exponent of the division, as written to the prescaler field.
    pub fn bits(self) -> (b: u32)
        ensures
            b == presc_bits(self),
            b < 16,
    {
        match self {
            Prescaler::DIV1 => 0,
            Prescaler::DIV2 => 1,
            Prescaler::DIV4 => 2,
            Prescaler::DIV8 => 3,
            Prescaler::DIV16 => 4,
            Prescaler::DIV32 => 5,
            Prescaler::DIV64 => 6,
            Prescaler::DIV128 => 7,
            Prescaler::DIV256 => 8,
            Prescaler::DIV512 => 9,
            Prescaler::DIV1024 => 10,
            Prescaler::DIV2048 => 11,
            Prescaler::DIV4096 => 12,
            Prescaler::DIV8192 => 13,
            Prescaler::DIV16384 => 14,
            Prescaler::DIV32768 => 15,
        }
    }
}

/// Control flags of the counter.
#[derive(Clone, Copy, PartialEq, Eq, Structural, Debug)]
pub enum Ctrl {
    /// Keep counting while the core is halted by a debugger.
    DebugRun,
    /// Wrap the counter around at the COMP0 value.
    Comp0Top,
}

/// The CTRL bit of a flag.
pub open spec fn ctrl_bit(c: Ctrl) -> u32 {
    match c {
        Ctrl::DebugRun => 2,
        Ctrl::Comp0Top => 4,
    }
}

impl Ctrl {
    /// The CTRL bit of this flag.
    pub fn bit(self) -> (b: u32)
        ensures
            b == ctrl_bit(self),
    {
        match self {
            Ctrl::DebugRun => 2,
            Ctrl::Comp0Top => 4,
        }
    }
}

/// A set of control flags, given as an array of up to two of them.
pub trait CtrlTrait {
    /// The CTRL value that the flags make together.
    spec fn spec_bits(&self) -> u32;

    fn bits(self) -> (r: u32)
        ensures
            r == self.spec_bits(),
    ;
}

impl CtrlTrait for [Ctrl; 0] {
    open spec fn spec_bits(&self) -> u32 {
        0
    }

    fn bits(self) -> (r: u32) {
        0
    }
}

impl CtrlTrait for [Ctrl; 1] {
    open spec fn spec_bits(&self) -> u32 {
        ctrl_bit(self@[0])
    }

    fn bits(self) -> (r: u32) {
        self[0].bit()
    }
}

impl CtrlTrait for [Ctrl; 2] {
    open spec fn spec_bits(&self) -> u32 {
        ctrl_bit(self@[0]) | ctrl_bit(self@[1])
    }

    fn bits(self) -> (r: u32) {
        self[0].bit() | self[1].bit()
    }
}

/// A duration in whole seconds.
#[derive(Clone, Copy, PartialEq, Eq, Structural, Debug)]
pub struct Seconds(pub u32);

impl From<u32> for Seconds {
    fn from(c: u32) -> (s: Seconds) {
        Seconds(c)
    }
}

impl vstd::std_specs::convert::FromSpecImpl<u32> for Seconds {
    open spec fn obeys_from_spec() -> bool {
        true
    }

    open spec fn from_spec(c: u32) -> Seconds {
        Seconds(c)
    }
}

/// Counter ticks in `secs` seconds at prescaler exponent `presc`:
/// `(32768 / 2^presc) * secs`.
pub open spec fn counter_for(presc: u32, secs: u32) -> int {
    (BASE_CLOCK as int / pow2(presc as nat) as int) * secs as int
}

impl Seconds {
    /// The number of counter ticks this duration lasts when the counter's
    /// clock is divided by `2^presc`.
    pub fn to_counter(self, presc: u32) -> (r: u32)
        requires
            presc < 16,
            counter_for(presc, self.0) <= u32::MAX,
        ensures
            r == counter_for(presc, self.0),
    {
        proof {
            lemma2_to64();
            lemma_pow2_pos(presc as nat);
            lemma_pow2_strictly_increases(presc as nat, 16);
            lemma_u32_shl_is_mul(1, presc);
        }
        let div: u32 = 1u32 << presc;
        (BASE_CLOCK / div) * self.0
    }
}

/// The registers of the real-time counter.
#[derive(Clone, Copy, PartialEq, Eq, Structural, Debug)]
pub struct RtcState {
    /// CTRL: the enable bit and the control flags.
    pub ctrl: u32,
    /// CNT: the live count.
    pub cnt: u32,
    /// COMP0: the compare value.
    pub comp0: u32,
}

/// Whether a poll finds the countdown complete: the count has reached
/// `comp0 - 1`.
pub open spec fn wait_ready(cnt: u32, comp0: u32) -> bool {
    cnt as int >= comp0 as int - 1
}

/// One poll of the countdown: whether it is complete, and the registers
/// after it (the count back at zero when it is).
pub open spec fn wait_next(s: RtcState) -> (bool, RtcState) {
    if wait_ready(s.cnt, s.comp0) {
        (true, RtcState { cnt: 0, ..s })
    } else {
        (false, s)
    }
}

/// The real-time counter, used as a count-down timer.
pub struct RTC {
    regs: RtcState,
}

impl View for RTC {
    type V = RtcState;

    closed spec fn view(&self) -> RtcState {
        self.regs
    }
}

impl RTC {
    /// A counter whose registers all hold zero.
    pub fn new() -> (r: RTC)
        ensures
            r@ == (RtcState { ctrl: 0, cnt: 0, comp0: 0 }),
    {
        RTC { regs: RtcState { ctrl: 0, cnt: 0, comp0: 0 } }
    }

    /// Starts the low-frequency oscillator, clocks the low-energy block and
    /// the counter with prescaler `presc`, and writes the control flags
    /// `ctrl` to CTRL (the counter left stopped).
    pub fn setup<CT: CtrlTrait>(&mut self, cmu: &mut Cmu, presc: Prescaler, ctrl: CT)
        ensures
            *final(cmu) == (Cmu {
                lfrco_enabled: true,
                le_clock: true,
                rtc_clock: true,
                rtc_presc: presc_bits(presc),
                ..*old(cmu)
            }),
            final(self)@ == (RtcState { ctrl: ctrl.spec_bits(), ..old(self)@ }),
    {
        cmu.lfrco_enabled = true;
        cmu.le_clock = true;
        cmu.rtc_presc = presc.bits();
        cmu.rtc_clock = true;
        self.regs.ctrl = ctrl.bits();
    }

    /// `setup` with no division and the counter wrapping at COMP0.
    pub fn default_setup(&mut self, cmu: &mut Cmu)
        ensures
            *final(cmu) == (Cmu {
                lfrco_enabled: true,
                le_clock: true,
                rtc_clock: true,
                rtc_presc: 0,
                ..*old(cmu)
            }),
            final(self)@ == (RtcState { ctrl: 4, ..old(self)@ }),
    {
        self.setup(cmu, Prescaler::DIV1, [Ctrl::Comp0Top]);
    }

    /// Sets the enable bit of CTRL.
    pub fn enable(&mut self)
        ensures
            final(self)@ == (RtcState { ctrl: old(self)@.ctrl | CTRL_EN, ..old(self)@ }),
    {
        self.regs.ctrl = self.regs.ctrl | CTRL_EN;
    }

    /// Clears the enable bit of CTRL.
    pub fn disable(&mut self)
        ensures
            final(self)@ == (RtcState { ctrl: old(self)@.ctrl & !CTRL_EN, ..old(self)@ }),
    {
        self.regs.ctrl = self.regs.ctrl & !CTRL_EN;
    }

    /// The counter's registers.
    pub fn state(&self) -> (s: RtcState)
        ensures
            s == self@,
    {
        self.regs
    }

    /// The live count.
    pub fn get_counter(&self) -> (c: u32)
        ensures
            c == self@.cnt,
    {
        self.regs.cnt
    }

    /// Overwrites the live count.
    pub fn set_counter(&mut self, c: u32)
        ensures
            final(self)@ == (RtcState { cnt: c, ..old(self)@ }),
    {
        self.regs.cnt = c;
    }

    /// The compare value.
    pub fn get_comp0(&self) -> (c: u32)
        ensures
            c == self@.comp0,
    {
        self.regs.comp0
    }

    /// Overwrites the compare value.
    pub fn set_comp0(&mut self, c: u32)
        ensures
            final(self)@ == (RtcState { comp0: c, ..old(self)@ }),
    {
        self.regs.comp0 = c;
    }

    /// Starts a countdown of `count`: stops the counter, sets the compare
    /// value to the ticks that `count` lasts at the prescaler in `cmu`, and
    /// starts the counter again.
    pub fn start(&mut self, cmu: &Cmu, count: Seconds)
        requires
            cmu.rtc_presc < 16,
            counter_for(cmu.rtc_presc, count.0) <= u32::MAX,
        ensures
            final(self)@ == (RtcState {
                ctrl: (old(self)@.ctrl & !CTRL_EN) | CTRL_EN,
                comp0: counter_for(cmu.rtc_presc, count.0) as u32,
                ..old(self)@
            }),
    {
        self.disable();
        let c = count.to_counter(cmu.rtc_presc);
        self.set_comp0(c);
        self.enable();
    }

    /// Polls the countdown: complete once the count has reached
    /// `comp0 - 1`, in which case the count is put back to zero.
    pub fn wait(&mut self) -> (done: bool)
        ensures
            (done, final(self)@) == wait_next(old(self)@),
    {
        let cnt = self.get_counter();
        let comp0 = self.get_comp0();
        if comp0 == 0 || cnt >= comp0 - 1 {
            self.set_counter(0);
            true
        } else {
            false
        }
    }
}

} // verus!

verus! {

/// One second lasts `32768 / 2^presc` ticks, and zero seconds none.
pub proof fn law_counter_one_and_zero(presc: u32)
    requires
        presc < 16,
    ensures
        counter_for(presc, 1) == 32768int / pow2(presc as nat) as int,
        counter_for(presc, 0) == 0,
{
}

/// A poll reports completion exactly when the count has reached
/// `comp0 - 1`, and then puts the count back to zero; with a compare value of
/// two or more, a poll right after a completion (the count not yet moved on)
/// does not report completion again.
pub proof fn law_wait_completes_once(s: RtcState)
    ensures
        wait_next(s).0 <==> s.cnt as int >= s.comp0 as int - 1,
        !wait_next(s).0 ==> wait_next(s).1 == s,
        wait_next(s).0 ==> wait_next(s).1 == (RtcState { cnt: 0, ..s }),
        wait_next(s).0 && s.comp0 >= 2 ==> !wait_next(wait_next(s).1).0,
{
}

} // verus!
