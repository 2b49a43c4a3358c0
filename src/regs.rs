//! A model of the GPIO register block: the value each register holds and the
//! ordered record of every write made to it.

use vstd::prelude::*;

verus! {

/// One of the six GPIO ports.
#[derive(Clone, Copy, PartialEq, Eq, Structural, Debug)]
pub enum Port {
    A,
    B,
    C,
    D,
    E,
    F,
}

/// The registers that each port owns.
#[derive(Clone, Copy, PartialEq, Eq, Structural, Debug)]
pub enum RegKind {
    Ctrl,
    ModeL,
    ModeH,
    Dout,
    DoutSet,
    DoutClr,
    DoutTgl,
    Din,
    PinLockN,
}

/// A register of the GPIO block: a port and one of its registers.
#[derive(Clone, Copy, PartialEq, Eq, Structural, Debug)]
pub struct Reg {
    pub port: Port,
    pub kind: RegKind,
}

/// One write on the bus: the register and the whole value stored in it.
#[derive(Clone, Copy, PartialEq, Eq, Structural, Debug)]
pub struct RegWrite {
    pub reg: Reg,
    pub value: u32,
}

/// Number of registers in the block: nine for each of six ports.
pub const NUM_REGS: usize = 54;

pub open spec fn port_index(p: Port) -> nat {
    match p {
        Port::A => 0,
        Port::B => 1,
        Port::C => 2,
        Port::D => 3,
        Port::E => 4,
        Port::F => 5,
    }
}

pub open spec fn kind_index(k: RegKind) -> nat {
    match k {
        RegKind::Ctrl => 0,
        RegKind::ModeL => 1,
        RegKind::ModeH => 2,
        RegKind::Dout => 3,
        RegKind::DoutSet => 4,
        RegKind::DoutClr => 5,
        RegKind::DoutTgl => 6,
        RegKind::Din => 7,
        RegKind::PinLockN => 8,
    }
}

/// Position of a register in the block.
pub open spec fn reg_index(r: Reg) -> nat {
    port_index(r.port) * 9 + kind_index(r.kind)
}

proof fn lemma_reg_index(r: Reg, q: Reg)
    ensures
        reg_index(r) < NUM_REGS,
        r != q ==> reg_index(r) != reg_index(q),
{
}

fn index_of(r: Reg) -> (i: usize)
    ensures
        i == reg_index(r),
{
    let p: usize = match r.port {
        Port::A => 0,
        Port::B => 1,
        Port::C => 2,
        Port::D => 3,
        Port::E => 4,
        Port::F => 5,
    };
    let k: usize = match r.kind {
        RegKind::Ctrl => 0,
        RegKind::ModeL => 1,
        RegKind::ModeH => 2,
        RegKind::Dout => 3,
        RegKind::DoutSet => 4,
        RegKind::DoutClr => 5,
        RegKind::DoutTgl => 6,
        RegKind::Din => 7,
        RegKind::PinLockN => 8,
    };
    p * 9 + k
}

/// Mask of the four-bit mode field in slot `slot` of a MODEL/MODEH register.
pub open spec fn field_mask(slot: u32) -> u32 {
    0xfu32 << (4 * slot) as u32
}

/// The four-bit mode field in slot `slot` of a register value.
pub open spec fn field_of(v: u32, slot: u32) -> u32 {
    (v >> (4 * slot) as u32) & 0xfu32
}

/// `v` with the field in slot `slot` replaced by `code`.
pub open spec fn set_field(v: u32, slot: u32, code: u32) -> u32 {
    (v & !field_mask(slot)) | (code << (4 * slot) as u32)
}

/// The single bit of pin `n` in a port-wide data register.
pub open spec fn pin_mask(n: u32) -> u32 {
    1u32 << n
}

/// Whether bit `m` of `v` is set.
pub open spec fn bit_of(v: u32, m: u32) -> bool {
    (v >> m) & 1u32 == 1u32
}

/// What register `q` holds after the write `w`, given that it held `prev`:
/// the register written takes the value, and the port's data-out register
/// takes the bits that a write to data-out-set, -clear or -toggle sets,
/// clears or flips. Every other register keeps its value.
pub open spec fn write_effect(w: RegWrite, q: Reg, prev: u32) -> u32 {
    if w.reg == q {
        w.value
    } else if q.kind == RegKind::Dout && w.reg.port == q.port {
        match w.reg.kind {
            RegKind::DoutSet => prev | w.value,
            RegKind::DoutClr => prev & !w.value,
            RegKind::DoutTgl => prev ^ w.value,
            _ => prev,
        }
    } else {
        prev
    }
}

/// The GPIO register block as a plain store of values, with its write record.
pub struct GpioRegs {
    values: Vec<u32>,
    log: Vec<RegWrite>,
}

impl GpioRegs {
    /// The block holds one value for each register.
    pub closed spec fn wf(&self) -> bool {
        self.values@.len() == NUM_REGS
    }

    /// The value register `r` holds.
    pub closed spec fn value_of(&self, r: Reg) -> u32 {
        self.values@[reg_index(r) as int]
    }

    /// Every write made so far, oldest first.
    pub closed spec fn history(&self) -> Seq<RegWrite> {
        self.log@
    }

    /// A block whose registers all hold zero, with no write made yet.
    pub fn new() -> (r: GpioRegs)
        ensures
            r.wf(),
            forall|q: Reg| #[trigger] r.value_of(q) == 0,
            r.history() == Seq::<RegWrite>::empty(),
    {
        let mut values: Vec<u32> = Vec::new();
        let mut i: usize = 0;
        while i < NUM_REGS
            invariant
                i <= NUM_REGS,
                values@.len() == i,
                forall|j: int| 0 <= j < i ==> values@[j] == 0,
            decreases NUM_REGS - i,
        {
            values.push(0);
            i = i + 1;
        }
        let r = GpioRegs { values, log: Vec::new() };
        assert forall|q: Reg| #[trigger] r.value_of(q) == 0 by {
            lemma_reg_index(q, q);
        }
        r
    }

    /// Reads register `r`.
    pub fn read(&self, r: Reg) -> (v: u32)
        requires
            self.wf(),
        ensures
            v == self.value_of(r),
    {
        proof {
            lemma_reg_index(r, r);
        }
        self.values[index_of(r)]
    }

    /// A copy of the write record, oldest first.
    pub fn write_log(&self) -> (w: Vec<RegWrite>)
        ensures
            w@ == self.history(),
    {
        self.log.clone()
    }

    /// Stores `v` in register `r`, applies a write to data-out-set, -clear or
    /// -toggle to the port's data-out register, and records the write.
    pub fn write(&mut self, r: Reg, v: u32)
        requires
            old(self).wf(),
        ensures
            final(self).wf(),
            forall|q: Reg|
                #[trigger] final(self).value_of(q) == write_effect(
                    RegWrite { reg: r, value: v },
                    q,
                    old(self).value_of(q),
                ),
            final(self).history() == old(self).history().push(RegWrite { reg: r, value: v }),
    {
        let d = Reg { port: r.port, kind: RegKind::Dout };
        proof {
            lemma_reg_index(r, d);
            lemma_reg_index(d, r);
        }
        let i = index_of(r);
        let j = index_of(d);
        let cur = self.values[j];
        self.values.set(i, v);
        match r.kind {
            RegKind::DoutSet => self.values.set(j, cur | v),
            RegKind::DoutClr => self.values.set(j, cur & !v),
            RegKind::DoutTgl => self.values.set(j, cur ^ v),
            _ => {},
        }
        self.log.push(RegWrite { reg: r, value: v });
        assert forall|q: Reg| #[trigger]
            self.value_of(q) == write_effect(RegWrite { reg: r, value: v }, q, old(self).value_of(q)) by {
            lemma_reg_index(q, r);
            lemma_reg_index(q, d);
        }
    }

    /// Replaces the mode field in slot `slot` of register `r` by `code`,
    /// leaving its other fields as they were, and records the write.
    pub fn modify_field(&mut self, r: Reg, slot: u32, code: u32)
        requires
            old(self).wf(),
            slot < 8,
            code < 16,
        ensures
            final(self).wf(),
            forall|q: Reg|
                #[trigger] final(self).value_of(q) == write_effect(
                    RegWrite { reg: r, value: set_field(old(self).value_of(r), slot, code) },
                    q,
                    old(self).value_of(q),
                ),
            final(self).history() == old(self).history().push(
                RegWrite { reg: r, value: set_field(old(self).value_of(r), slot, code) },
            ),
    {
        let cur = self.read(r);
        let shift: u32 = 4 * slot;
        let v = (cur & !(0xfu32 << shift)) | (code << shift);
        self.write(r, v);
    }
}

} // verus!
