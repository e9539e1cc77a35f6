//! Registers as the code generator names them: a register is a regalloc2
//! virtual-register number and a class; the first 128 numbers are pinned to
//! the physical registers of the same index.
use vstd::prelude::*;

use crate::preg::{class_bit, class_of_index, preg_from_index, preg_new_index};

verus! {

/// The number of virtual-register numbers that stand for physical registers.
pub const PINNED_VREGS: usize = 128;

/// The largest virtual-register number that regalloc2's `VReg` can hold.
pub const VREG_MAX: usize = 2097151;

/// A register class: general-purpose integer registers, or float/vector
/// registers.
#[derive(Clone, Copy, Debug, PartialEq, Eq, Structural)]
pub enum RegClass {
    Int,
    Float,
}

/// A physical register, held as its regalloc2 index: the hardware encoding
/// in the low six bits and the class in bit six.
#[derive(Clone, Copy, Debug, PartialEq, Eq, Structural)]
pub struct PReg {
    pub index: u8,
}

impl PReg {
    /// The physical register with the given hardware encoding and class.
    pub fn new(hw_enc: usize, class: RegClass) -> (preg: PReg)
        requires
            hw_enc < 64,
        ensures
            preg.index == hw_enc + 64 * class_bit(class),
    {
        let index = preg_new_index(hw_enc, class);
        PReg { index: index as u8 }
    }

    /// The physical register whose index is `index`, cut to seven bits.
    pub fn from_index(index: usize) -> (preg: PReg)
        ensures
            preg.index == index % 128,
    {
        let (bits, _, _) = preg_from_index(index);
        PReg { index: bits as u8 }
    }

    /// The index of this register in the space shared by both classes.
    pub fn index(self) -> (index: usize)
        ensures
            index == self.index,
    {
        self.index as usize
    }

    /// The hardware encoding of this register within its class.
    pub fn hw_enc(self) -> (hw_enc: usize)
        ensures
            hw_enc == self.index % 64,
    {
        let (_, hw_enc, _) = preg_from_index(self.index as usize);
        hw_enc
    }

    /// The class of this register.
    pub fn class(self) -> (class: RegClass)
        ensures
            class == class_of_index(self.index as nat),
    {
        let (_, _, class) = preg_from_index(self.index as usize);
        class
    }
}


/// A register named in an instruction: a regalloc2 virtual-register number and
/// its class. Numbers below `PINNED_VREGS` stand for the physical register of
/// the same index; the others are virtual registers.
#[derive(Clone, Copy, Debug, PartialEq, Eq, Structural)]
pub struct Reg {
    pub vreg: usize,
    pub class: RegClass,
}

/// A physical register, held as the pinned virtual register that names it.
#[derive(Clone, Copy, Debug, PartialEq, Eq, Structural)]
pub struct RealReg {
    pub vreg: usize,
    pub class: RegClass,
}

impl Reg {
    /// The register for a regalloc2 virtual register `VReg::new(vreg, class)`.
    pub fn from_vreg(vreg: usize, class: RegClass) -> (reg: Reg)
        requires
            vreg <= VREG_MAX,
        ensures
            reg == (Reg { vreg, class }),
    {
        Reg { vreg, class }
    }

    /// The register pinned to a physical register: its number is the
    /// physical register's index and its class the physical register's class.
    pub fn from_preg(preg: PReg) -> (reg: Reg)
        ensures
            reg == (Reg { vreg: preg.index as usize, class: class_of_index(preg.index as nat) }),
    {
        Reg { vreg: preg.index(), class: preg.class() }
    }

    /// The register that names a physical register.
    pub fn from_real_reg(rreg: RealReg) -> (reg: Reg)
        ensures
            reg == (Reg { vreg: rreg.vreg, class: rreg.class }),
    {
        Reg { vreg: rreg.vreg, class: rreg.class }
    }

    /// Whether this register stands for a physical register.
    pub open spec fn is_real_spec(self) -> bool {
        self.vreg < PINNED_VREGS
    }

    /// The physical register that this register stands for, if any.
    pub open spec fn real_spec(self) -> Option<RealReg> {
        if self.is_real_spec() {
            Some(RealReg { vreg: self.vreg, class: self.class })
        } else {
            None
        }
    }

    /// The physical register that this register stands for, if any.
    pub fn to_real_reg(self) -> (rreg: Option<RealReg>)
        ensures
            rreg == self.real_spec(),
    {
        if self.vreg < PINNED_VREGS {
            Some(RealReg { vreg: self.vreg, class: self.class })
        } else {
            None
        }
    }

    /// The class of this register.
    pub fn class(self) -> (class: RegClass)
        ensures
            class == self.class,
    {
        self.class
    }

    /// Whether this register stands for a physical register.
    pub fn is_real(self) -> (b: bool)
        ensures
            b == self.is_real_spec(),
    {
        self.vreg < PINNED_VREGS
    }

    /// Whether this register is a virtual register.
    pub fn is_virtual(self) -> (b: bool)
        ensures
            b == !self.is_real_spec(),
    {
        self.vreg >= PINNED_VREGS
    }
}

impl RealReg {
    /// The hardware encoding of a physical register within its class.
    pub open spec fn hw_enc_spec(self) -> nat {
        self.vreg as nat % 64
    }

    /// The class of this register.
    pub fn class(self) -> (class: RegClass)
        ensures
            class == self.class,
    {
        self.class
    }

    /// The physical register that this register names.
    pub fn to_preg(self) -> (preg: PReg)
        ensures
            preg.index == self.vreg % 128,
    {
        PReg::from_index(self.vreg)
    }

    /// The hardware encoding of this register within its class.
    pub fn hw_enc(self) -> (hw_enc: u8)
        ensures
            hw_enc == self.hw_enc_spec(),
    {
        let preg = self.to_preg();
        proof {
            assert((self.vreg as nat % 128) % 64 == self.vreg as nat % 64) by (nonlinear_arith);
        }
        preg.hw_enc() as u8
    }
}

/// A register that an instruction writes. The wrapper only marks intent: any
/// register can be wrapped and unwrapped.
#[derive(Clone, Copy, Debug, PartialEq, Eq)]
pub struct Writable<T> {
    reg: T,
}

impl<T> View for Writable<T> {
    type V = T;

    closed spec fn view(&self) -> T {
        self.reg
    }
}

impl<T: Copy> Writable<T> {
    /// Marks `reg` as written.
    pub fn from_reg(reg: T) -> (w: Writable<T>)
        ensures
            w@ == reg,
    {
        Writable { reg }
    }

    /// The register that is written.
    pub fn to_reg(self) -> (reg: T)
        ensures
            reg == self@,
    {
        self.reg
    }
}


/// The register that regalloc2 pins to a physical register.
pub open spec fn pinned_reg(preg: PReg) -> Reg {
    Reg { vreg: preg.index as usize, class: class_of_index(preg.index as nat) }
}

/// The outcome that the register allocator gave one operand: nothing, a
/// physical register, or a spill slot.
#[derive(Clone, Copy, Debug, PartialEq, Eq, Structural)]
pub enum Allocation {
    Empty,
    Reg(PReg),
    Stack(usize),
}

/// Whether `AllocationConsumer::next` may take `pre_regalloc_reg` while
/// `allocs` remain: the next allocation, if there is one, is a register, and a
/// physical register is only ever allocated to itself.
pub open spec fn next_allowed(allocs: Seq<Allocation>, pre_regalloc_reg: Reg) -> bool {
    allocs.len() > 0 ==> {
        &&& allocs[0] is Reg
        &&& pre_regalloc_reg.is_real_spec() ==> pre_regalloc_reg == pinned_reg(allocs[0]->Reg_0)
    }
}

/// The register that `AllocationConsumer::next` gives for `pre_regalloc_reg`
/// while `allocs` remain: the register of the next allocation, or, once the
/// allocations have run out, the register itself.
pub open spec fn next_reg(allocs: Seq<Allocation>, pre_regalloc_reg: Reg) -> Reg {
    if allocs.len() > 0 {
        pinned_reg(allocs[0]->Reg_0)
    } else {
        pre_regalloc_reg
    }
}

/// What remains of `allocs` after `AllocationConsumer::next`: one allocation
/// fewer, unless none was left.
pub open spec fn after_next(allocs: Seq<Allocation>) -> Seq<Allocation> {
    if allocs.len() > 0 {
        allocs.drop_first()
    } else {
        allocs
    }
}

/// Hands out the allocations of one instruction, one per register operand, in
/// the order in which the operands were collected. Its view is the sequence
/// of allocations not yet handed out.
pub struct AllocationConsumer<'a> {
    allocs: &'a [Allocation],
    pos: usize,
}

impl<'a> View for AllocationConsumer<'a> {
    type V = Seq<Allocation>;

    closed spec fn view(&self) -> Seq<Allocation> {
        self.allocs@.skip(self.pos as int)
    }
}

impl<'a> AllocationConsumer<'a> {
    #[verifier::type_invariant]
    spec fn within_bounds(self) -> bool {
        self.pos <= self.allocs@.len()
    }

    /// A consumer that hands out `allocs` from the first on.
    pub fn new(allocs: &'a [Allocation]) -> (consumer: AllocationConsumer<'a>)
        ensures
            consumer@ == allocs@,
    {
        let consumer = AllocationConsumer { allocs, pos: 0 };
        assert(consumer@ =~= allocs@);
        consumer
    }

    /// The register to use for the next operand, whose register before
    /// allocation was `pre_regalloc_reg`: the allocated register where the
    /// allocation is known, else `pre_regalloc_reg`. Takes one allocation.
    pub fn next(&mut self, pre_regalloc_reg: Reg) -> (reg: Reg)
        requires
            next_allowed(old(self)@, pre_regalloc_reg),
        ensures
            reg == next_reg(old(self)@, pre_regalloc_reg),
            final(self)@ == after_next(old(self)@),
    {
        proof {
            use_type_invariant(&*self);
        }
        let ghost before = self@;
        let alloc: Option<Reg> = if self.pos < self.allocs.len() {
            let a = self.allocs[self.pos];
            self.pos = self.pos + 1;
            assert(self@ =~= before.drop_first());
            match a {
                Allocation::Reg(preg) => Some(Reg::from_preg(preg)),
                _ => {
                    assert(false);
                    None
                },
            }
        } else {
            None
        };
        match (pre_regalloc_reg.to_real_reg(), alloc) {
            (Some(rreg), None) => Reg::from_real_reg(rreg),
            (Some(_), Some(alloc)) => alloc,
            (None, Some(alloc)) => alloc,
            (None, None) => pre_regalloc_reg,
        }
    }
}

/// A physical register made from a hardware encoding and a class gives both
/// back: regalloc2 keeps integer registers at indices 0 to 63 and float
/// registers at 64 to 127.
pub proof fn lemma_preg_round_trip(hw_enc: nat, class: RegClass)
    requires
        hw_enc < 64,
    ensures
        (hw_enc + 64 * class_bit(class)) % 64 == hw_enc,
        class_of_index(hw_enc + 64 * class_bit(class)) == class,
        hw_enc + 64 * class_bit(class) < 128,
{
}

/// A physical register named as a register and read back is the same
/// physical register, and it is never taken for a virtual one.
pub proof fn lemma_real_reg_round_trip(rreg: RealReg)
    requires
        rreg.vreg < PINNED_VREGS,
    ensures
        (Reg { vreg: rreg.vreg, class: rreg.class }).real_spec() == Some(rreg),
        (Reg { vreg: rreg.vreg, class: rreg.class }).is_real_spec(),
{
}

/// Before register allocation, when no allocations are known, a register is
/// given back as it is and nothing is consumed.
pub proof fn lemma_next_without_allocations(reg: Reg)
    ensures
        next_allowed(Seq::<Allocation>::empty(), reg),
        next_reg(Seq::<Allocation>::empty(), reg) == reg,
        after_next(Seq::<Allocation>::empty()) == Seq::<Allocation>::empty(),
{
}

/// A physical register keeps its identity through allocation: wherever the
/// consumer may take it, it gives the same register back.
pub proof fn lemma_next_keeps_real_reg(allocs: Seq<Allocation>, reg: Reg)
    requires
        next_allowed(allocs, reg),
        reg.is_real_spec(),
    ensures
        next_reg(allocs, reg) == reg,
{
}

/// Whenever an allocation remains, `next` gives the register of the first
/// remaining allocation, however many remain: the register pinned to that
/// physical register, with the physical register's index as its number and
/// the class that the index encodes.
pub proof fn lemma_next_gives_first_allocation(allocs: Seq<Allocation>, reg: Reg, preg: PReg)
    requires
        allocs.len() > 0,
        allocs[0] == Allocation::Reg(preg),
        preg.index < 128,
    ensures
        next_reg(allocs, reg) == (Reg {
            vreg: preg.index as usize,
            class: if preg.index < 64 { RegClass::Int } else { RegClass::Float },
        }),
        next_reg(allocs, reg).is_real_spec(),
{
}

/// Each call of `next` consumes exactly one allocation while any remain, and
/// hands them out in order.
pub proof fn lemma_next_consumes_one(allocs: Seq<Allocation>)
    requires
        allocs.len() > 0,
    ensures
        after_next(allocs).len() == allocs.len() - 1,
        forall|i: int| 0 <= i < after_next(allocs).len() ==> after_next(allocs)[i] == allocs[i + 1],
{
}

/// The settings that the register universe depends on.
#[derive(Clone, Copy, Debug, PartialEq, Eq)]
pub struct Flags {
    pub enable_pinned_reg: bool,
}

impl Flags {
    /// Whether the pinned register is reserved for the embedder.
    pub fn enable_pinned_reg(&self) -> (b: bool)
        ensures
            b == self.enable_pinned_reg,
    {
        self.enable_pinned_reg
    }
}

/// The registers that the register allocator may use, by class (index 0 for
/// integer, 1 for float): those to try first, those to fall back on, and the
/// registers that stand for fixed stack slots.
pub struct MachineEnv {
    pub preferred_regs_by_class: [Vec<PReg>; 2],
    pub non_preferred_regs_by_class: [Vec<PReg>; 2],
    pub fixed_stack_slots: Vec<PReg>,
}

} // verus!
