//! AArch64 registers: the register constructors, the register universe that
//! the register allocator may draw from, and the assembler names of registers.
use vstd::prelude::*;

use crate::machinst::{
    after_next, next_allowed, next_reg, AllocationConsumer, Flags, MachineEnv, PReg, RealReg, Reg,
    RegClass, Writable,
};
use crate::preg::class_of_index;
use crate::sizes::{OperandSize, ScalarSize, VectorSize};
use crate::text::{decimal, push_decimal};

verus! {

/// The pinned register on this architecture (x21). It must be the same as
/// SpiderMonkey's HeapReg.
pub const PINNED_REG: u8 = 21;

//=============================================================================
// Registers and their constructors

/// The integer register x`num`, as a register.
pub open spec fn xreg_spec(num: nat) -> Reg {
    Reg { vreg: num as usize, class: RegClass::Int }
}

/// The vector/FP register v`num`, as a register: it is pinned to physical
/// register index 64 + `num`.
pub open spec fn vreg_spec(num: nat) -> Reg {
    Reg { vreg: (64 + num) as usize, class: RegClass::Float }
}

/// Get a reference to an X-register (integer register). Do not use
/// this for xsp / xzr; we have two special registers for those.
pub fn xreg(num: u8) -> (reg: Reg)
    requires
        num < 31,
    ensures
        reg == xreg_spec(num as nat),
{
    Reg::from_preg(xreg_preg(num))
}

/// Get the given X-register as a PReg.
pub(crate) fn xreg_preg(num: u8) -> (preg: PReg)
    requires
        num < 31,
    ensures
        preg.index == num,
        class_of_index(preg.index as nat) == RegClass::Int,
{
    PReg::new(num as usize, RegClass::Int)
}

/// Get a writable reference to an X-register.
pub fn writable_xreg(num: u8) -> (w: Writable<Reg>)
    requires
        num < 31,
    ensures
        w@ == xreg_spec(num as nat),
{
    Writable::from_reg(xreg(num))
}

/// Get a reference to a V-register (vector/FP register).
pub fn vreg(num: u8) -> (reg: Reg)
    requires
        num < 32,
    ensures
        reg == vreg_spec(num as nat),
{
    Reg::from_preg(vreg_preg(num))
}

/// Get the given V-register as a PReg.
pub(crate) fn vreg_preg(num: u8) -> (preg: PReg)
    requires
        num < 32,
    ensures
        preg.index == 64 + num,
        class_of_index(preg.index as nat) == RegClass::Float,
{
    PReg::new(num as usize, RegClass::Float)
}

/// Get a writable reference to a V-register.
pub fn writable_vreg(num: u8) -> (w: Writable<Reg>)
    requires
        num < 32,
    ensures
        w@ == vreg_spec(num as nat),
{
    Writable::from_reg(vreg(num))
}

/// Get a reference to the zero-register.
pub fn zero_reg() -> (reg: Reg)
    ensures
        reg == xreg_spec(31),
{
    let preg = PReg::new(31, RegClass::Int);
    Reg::from_vreg(preg.index(), RegClass::Int)
}

/// Get a writable reference to the zero-register (this discards a result).
pub fn writable_zero_reg() -> (w: Writable<Reg>)
    ensures
        w@ == xreg_spec(31),
{
    Writable::from_reg(zero_reg())
}

/// Get a reference to the stack-pointer register.
///
/// XSP (stack) and XZR (zero) are logically different registers which have
/// the same hardware encoding, and whose meaning, in real aarch64
/// instructions, is context-dependent. They are kept as two different real
/// registers: XZR is xreg(31) and XSP is encoding 31 + 32, which the six-bit
/// encoding leaves room for; the hardware encoding is the low five bits.
pub fn stack_reg() -> (reg: Reg)
    ensures
        reg == xreg_spec(63),
{
    let preg = PReg::new(31 + 32, RegClass::Int);
    Reg::from_vreg(preg.index(), RegClass::Int)
}

/// Get a writable reference to the stack-pointer register.
pub fn writable_stack_reg() -> (w: Writable<Reg>)
    ensures
        w@ == xreg_spec(63),
{
    Writable::from_reg(stack_reg())
}

/// Get a reference to the link register (x30).
pub fn link_reg() -> (reg: Reg)
    ensures
        reg == xreg_spec(30),
{
    xreg(30)
}

/// Get a writable reference to the link register.
pub fn writable_link_reg() -> (w: Writable<Reg>)
    ensures
        w@ == xreg_spec(30),
{
    Writable::from_reg(link_reg())
}

/// Get a reference to the frame pointer (x29).
pub fn fp_reg() -> (reg: Reg)
    ensures
        reg == xreg_spec(29),
{
    xreg(29)
}

/// Get a writable reference to the frame pointer.
pub fn writable_fp_reg() -> (w: Writable<Reg>)
    ensures
        w@ == xreg_spec(29),
{
    Writable::from_reg(fp_reg())
}

/// Get a reference to the first temporary, sometimes "spill temporary",
/// register (x16, aka IP0). It computes the address of a spill slot when a
/// direct offset from FP does not reach, and is kept out of register
/// allocation for that purpose.
pub fn spilltmp_reg() -> (reg: Reg)
    ensures
        reg == xreg_spec(16),
{
    xreg(16)
}

/// Get a writable reference to the spilltmp reg.
pub fn writable_spilltmp_reg() -> (w: Writable<Reg>)
    ensures
        w@ == xreg_spec(16),
{
    Writable::from_reg(spilltmp_reg())
}

/// Get a reference to the second temp register (x17, aka IP1), for the edge
/// cases that need both the spilltmp and another temporary.
pub fn tmp2_reg() -> (reg: Reg)
    ensures
        reg == xreg_spec(17),
{
    xreg(17)
}

/// Get a writable reference to the tmp2 reg.
pub fn writable_tmp2_reg() -> (w: Writable<Reg>)
    ensures
        w@ == xreg_spec(17),
{
    Writable::from_reg(tmp2_reg())
}


/// x0 to x30 are physical integer registers whose hardware encoding is their
/// number; v0 to v31 are physical float registers whose hardware encoding is
/// their number.
pub proof fn lemma_regs_are_physical(num: nat)
    requires
        num < 32,
    ensures
        num < 31 ==> xreg_spec(num).real_spec() == Some(RealReg { vreg: num as usize, class: RegClass::Int }),
        num < 31 ==> (RealReg { vreg: num as usize, class: RegClass::Int }).hw_enc_spec() == num,
        vreg_spec(num).real_spec() == Some(RealReg { vreg: (64 + num) as usize, class: RegClass::Float }),
        (RealReg { vreg: (64 + num) as usize, class: RegClass::Float }).hw_enc_spec() == num,
{
}

/// The zero register and the stack pointer are two different registers with
/// the same hardware encoding in the low five bits, and they print
/// differently.
pub proof fn lemma_zero_and_stack_regs()
    ensures
        xreg_spec(31) != xreg_spec(63),
        xreg_spec(31).is_real_spec() && xreg_spec(63).is_real_spec(),
        31nat % 32 == 63nat % 32,
        reg_name(xreg_spec(31)) == seq!['x', 'z', 'r'],
        reg_name(xreg_spec(63)) == seq!['s', 'p'],
        reg_name(xreg_spec(31)) != reg_name(xreg_spec(63)),
{
    assert(reg_name(xreg_spec(31)) =~= seq!['x', 'z', 'r']);
    assert(reg_name(xreg_spec(63)) =~= seq!['s', 'p']);
    assert(reg_name(xreg_spec(31)).len() != reg_name(xreg_spec(63)).len());
}



/// The physical register x`num`.
pub open spec fn xpreg(num: nat) -> PReg {
    PReg { index: num as u8 }
}

/// The physical register v`num`.
pub open spec fn vpreg(num: nat) -> PReg {
    PReg { index: (64 + num) as u8 }
}

/// The integer registers to allocate first: x0 to x15.
pub open spec fn preferred_int_regs() -> Seq<PReg> {
    Seq::new(16, |i: int| xpreg(i as nat))
}

/// The float registers to allocate first: v0 to v7, then v16 to v31.
pub open spec fn preferred_float_regs() -> Seq<PReg> {
    Seq::new(8, |i: int| vpreg(i as nat)) + Seq::new(16, |i: int| vpreg((16 + i) as nat))
}

/// The integer registers to fall back on: x22 to x28, then x21 where the
/// pinned register is not reserved.
pub open spec fn non_preferred_int_regs(enable_pinned_reg: bool) -> Seq<PReg> {
    let callee_saved = Seq::new(7, |i: int| xpreg((22 + i) as nat));
    if enable_pinned_reg {
        callee_saved
    } else {
        callee_saved.push(xpreg(PINNED_REG as nat))
    }
}

/// The float registers to fall back on: v8 to v15.
pub open spec fn non_preferred_float_regs() -> Seq<PReg> {
    Seq::new(8, |i: int| vpreg((8 + i) as nat))
}

/// Whether `env` is the register universe for the given setting of the
/// pinned register.
pub open spec fn is_reg_env(env: MachineEnv, enable_pinned_reg: bool) -> bool {
    &&& env.preferred_regs_by_class@[0]@ == preferred_int_regs()
    &&& env.preferred_regs_by_class@[1]@ == preferred_float_regs()
    &&& env.non_preferred_regs_by_class@[0]@ == non_preferred_int_regs(enable_pinned_reg)
    &&& env.non_preferred_regs_by_class@[1]@ == non_preferred_float_regs()
    &&& env.fixed_stack_slots@ == Seq::<PReg>::empty()
}

/// The physical register that a register pinned to one stands for.
fn preg(r: Reg) -> (preg: PReg)
    requires
        r.is_real_spec(),
    ensures
        preg.index == r.vreg,
{
    r.to_real_reg().unwrap().to_preg()
}

/// Create the register universe for AArch64.
///
/// x16 and x17 are spilltmp and tmp2; x18 may carry platform state; x19 and
/// x20 are left out to emulate the register pressure of keeping a heap base
/// and limit in registers; x21 is the pinned register where that is enabled;
/// x29 is FP, x30 is LR and x31 is SP/ZR. None of these is allocatable.
pub fn create_reg_env(flags: &Flags) -> (env: MachineEnv)
    ensures
        is_reg_env(env, flags.enable_pinned_reg),
{
    let preferred_int = vec![
        preg(xreg(0)),
        preg(xreg(1)),
        preg(xreg(2)),
        preg(xreg(3)),
        preg(xreg(4)),
        preg(xreg(5)),
        preg(xreg(6)),
        preg(xreg(7)),
        preg(xreg(8)),
        preg(xreg(9)),
        preg(xreg(10)),
        preg(xreg(11)),
        preg(xreg(12)),
        preg(xreg(13)),
        preg(xreg(14)),
        preg(xreg(15)),
    ];
    let preferred_float = vec![
        preg(vreg(0)),
        preg(vreg(1)),
        preg(vreg(2)),
        preg(vreg(3)),
        preg(vreg(4)),
        preg(vreg(5)),
        preg(vreg(6)),
        preg(vreg(7)),
        preg(vreg(16)),
        preg(vreg(17)),
        preg(vreg(18)),
        preg(vreg(19)),
        preg(vreg(20)),
        preg(vreg(21)),
        preg(vreg(22)),
        preg(vreg(23)),
        preg(vreg(24)),
        preg(vreg(25)),
        preg(vreg(26)),
        preg(vreg(27)),
        preg(vreg(28)),
        preg(vreg(29)),
        preg(vreg(30)),
        preg(vreg(31)),
    ];
    let mut non_preferred_int = vec![
        preg(xreg(22)),
        preg(xreg(23)),
        preg(xreg(24)),
        preg(xreg(25)),
        preg(xreg(26)),
        preg(xreg(27)),
        preg(xreg(28)),
    ];
    let non_preferred_float = vec![
        preg(vreg(8)),
        preg(vreg(9)),
        preg(vreg(10)),
        preg(vreg(11)),
        preg(vreg(12)),
        preg(vreg(13)),
        preg(vreg(14)),
        preg(vreg(15)),
    ];
    let ghost callee_saved = non_preferred_int@;
    if !flags.enable_pinned_reg() {
        non_preferred_int.push(preg(xreg(PINNED_REG)));
    }
    assert(preferred_int@ =~= preferred_int_regs());
    assert(preferred_float@ =~= preferred_float_regs());
    assert(callee_saved =~= Seq::new(7, |i: int| xpreg((22 + i) as nat)));
    assert(non_preferred_int@ =~= non_preferred_int_regs(flags.enable_pinned_reg));
    assert(non_preferred_float@ =~= non_preferred_float_regs());
    let fixed_stack_slots: Vec<PReg> = Vec::new();
    let env = MachineEnv {
        preferred_regs_by_class: [preferred_int, preferred_float],
        non_preferred_regs_by_class: [non_preferred_int, non_preferred_float],
        fixed_stack_slots,
    };
    env
}


/// The registers that the register allocator may use, in the order of the
/// lists of the register universe: preferred integer, fallback integer,
/// preferred float, fallback float.
pub open spec fn allocatable_regs(enable_pinned_reg: bool) -> Seq<PReg> {
    preferred_int_regs() + non_preferred_int_regs(enable_pinned_reg) + preferred_float_regs()
        + non_preferred_float_regs()
}

/// Whether the physical register with index `index` may be allocated: the
/// integer registers x0 to x15 and x22 to x28, x21 unless it is pinned, and
/// every float register v0 to v31.
pub open spec fn is_allocatable_index(index: nat, enable_pinned_reg: bool) -> bool {
    ||| index < 16
    ||| 22 <= index < 29
    ||| (index == PINNED_REG && !enable_pinned_reg)
    ||| 64 <= index < 96
}

/// What `create_reg_env` hands out, register by register. The integer lists
/// are x0..x15 preferred and x22..x28 to fall back on, followed by x21 only
/// when the pinned register is off. The float lists do not depend on the
/// pinned-register setting: v0..v7 then v16..v31 are preferred and the
/// callee-saved v8..v15 are the fallback, never preferred.
pub proof fn lemma_reg_env_lists(env: MachineEnv, enable_pinned_reg: bool)
    requires
        is_reg_env(env, enable_pinned_reg),
    ensures
        env.preferred_regs_by_class@[0]@.len() == 16,
        forall|i: int|
            0 <= i < 16 ==> (#[trigger] env.preferred_regs_by_class@[0]@[i]).index == i,
        env.non_preferred_regs_by_class@[0]@.len() == if enable_pinned_reg { 7int } else { 8 },
        forall|i: int|
            0 <= i < 7 ==> (#[trigger] env.non_preferred_regs_by_class@[0]@[i]).index == 22 + i,
        !enable_pinned_reg ==> env.non_preferred_regs_by_class@[0]@[7].index == 21,
        env.preferred_regs_by_class@[1]@.len() == 24,
        forall|i: int|
            0 <= i < 24 ==> (#[trigger] env.preferred_regs_by_class@[1]@[i]).index == if i < 8 {
                64 + i
            } else {
                72 + i
            },
        env.non_preferred_regs_by_class@[1]@.len() == 8,
        forall|i: int|
            0 <= i < 8 ==> (#[trigger] env.non_preferred_regs_by_class@[1]@[i]).index == 72 + i,
        env.fixed_stack_slots@.len() == 0,
{
}

/// The float lists of two register universes are the same whatever the
/// pinned-register setting of each.
pub proof fn lemma_reg_env_float_lists_ignore_pinning(
    env1: MachineEnv,
    enable_pinned_reg1: bool,
    env2: MachineEnv,
    enable_pinned_reg2: bool,
)
    requires
        is_reg_env(env1, enable_pinned_reg1),
        is_reg_env(env2, enable_pinned_reg2),
    ensures
        env1.preferred_regs_by_class@[1]@ == env2.preferred_regs_by_class@[1]@,
        env1.non_preferred_regs_by_class@[1]@ == env2.non_preferred_regs_by_class@[1]@,
        env1.preferred_regs_by_class@[0]@ == env2.preferred_regs_by_class@[0]@,
{
    lemma_reg_env_lists(env1, enable_pinned_reg1);
    lemma_reg_env_lists(env2, enable_pinned_reg2);
    assert(env1.preferred_regs_by_class@[1]@ =~= env2.preferred_regs_by_class@[1]@);
    assert(env1.non_preferred_regs_by_class@[1]@ =~= env2.non_preferred_regs_by_class@[1]@);
    assert(env1.preferred_regs_by_class@[0]@ =~= env2.preferred_regs_by_class@[0]@);
}

/// No register appears twice in the register universe, across all its
/// lists.
pub proof fn lemma_reg_env_no_duplicates(enable_pinned_reg: bool)
    ensures
        allocatable_regs(enable_pinned_reg).no_duplicates(),
{
    let all = allocatable_regs(enable_pinned_reg);
    assert forall|i: int, j: int| 0 <= i < all.len() && 0 <= j < all.len() && i != j implies all[i]
        != all[j] by {
    }
}

/// A register is in the register universe exactly when it is allocatable:
/// the registers reserved for special purposes (x16 to x20, x29, x30, the zero
/// register and the stack pointer, and x21 where it is pinned) never are.
pub proof fn lemma_reg_env_members(enable_pinned_reg: bool, preg: PReg)
    ensures
        allocatable_regs(enable_pinned_reg).contains(preg) <==> is_allocatable_index(
            preg.index as nat,
            enable_pinned_reg,
        ),
{
    let all = allocatable_regs(enable_pinned_reg);
    if is_allocatable_index(preg.index as nat, enable_pinned_reg) {
        let i = preg.index as int;
        if i < 16 {
            assert(all[i] == preg);
        } else if 22 <= i < 29 {
            assert(all[i - 6] == preg);
        } else if i == 21 {
            assert(all[23] == preg);
        } else {
            let off: int = if enable_pinned_reg { 23 } else { 24 };
            if i < 72 {
                assert(all[off + i - 64] == preg);
            } else if i < 80 {
                assert(all[off + 24 + i - 72] == preg);
            } else {
                assert(all[off + i - 72] == preg);
            }
        }
    }
}

/// The registers with a fixed role (the spill temporaries, the frame pointer,
/// the link register, the zero register and the stack pointer) are never
/// handed to the register allocator, whatever the pinned-register setting.
pub proof fn lemma_special_regs_not_allocatable(enable_pinned_reg: bool)
    ensures
        forall|reg: Reg|
            #![trigger xpreg(reg.vreg as nat)]
            reg == xreg_spec(16) || reg == xreg_spec(17) || reg == xreg_spec(29) || reg
                == xreg_spec(30) || reg == xreg_spec(31) || reg == xreg_spec(63)
                ==> !allocatable_regs(enable_pinned_reg).contains(xpreg(reg.vreg as nat)),
{
    assert forall|reg: Reg|
        reg == xreg_spec(16) || reg == xreg_spec(17) || reg == xreg_spec(29) || reg == xreg_spec(
            30,
        ) || reg == xreg_spec(31) || reg == xreg_spec(63) implies !allocatable_regs(
        enable_pinned_reg,
    ).contains(#[trigger] xpreg(reg.vreg as nat)) by {
        lemma_reg_env_members(enable_pinned_reg, xpreg(reg.vreg as nat));
    }
}

/// Each list of the register universe holds registers of its own class only:
/// integer registers in the integer lists, float registers in the float lists.
pub proof fn lemma_reg_env_classes(enable_pinned_reg: bool)
    ensures
        forall|i: int|
            0 <= i < preferred_int_regs().len() ==> class_of_index(
                #[trigger] preferred_int_regs()[i].index as nat,
            ) == RegClass::Int,
        forall|i: int|
            0 <= i < non_preferred_int_regs(enable_pinned_reg).len() ==> class_of_index(
                #[trigger] non_preferred_int_regs(enable_pinned_reg)[i].index as nat,
            ) == RegClass::Int,
        forall|i: int|
            0 <= i < preferred_float_regs().len() ==> class_of_index(
                #[trigger] preferred_float_regs()[i].index as nat,
            ) == RegClass::Float,
        forall|i: int|
            0 <= i < non_preferred_float_regs().len() ==> class_of_index(
                #[trigger] non_preferred_float_regs()[i].index as nat,
            ) == RegClass::Float,
{
}


//=============================================================================
// Register names

/// The name of the integer register with hardware encoding `hw_enc`.
pub open spec fn ireg_name(hw_enc: nat) -> Seq<char> {
    if hw_enc == 29 {
        seq!['f', 'p']
    } else if hw_enc == 30 {
        seq!['l', 'r']
    } else if hw_enc == 31 {
        seq!['x', 'z', 'r']
    } else if hw_enc == 63 {
        seq!['s', 'p']
    } else {
        seq!['x'] + decimal(hw_enc)
    }
}

/// The name of the vector register with hardware encoding `hw_enc`: the
/// encoding is cut to its low five bits.
pub open spec fn vreg_name(hw_enc: nat) -> Seq<char> {
    seq!['v'] + decimal(hw_enc % 32)
}

/// The name of a register: the register's own name for a physical one, and
/// `%v` with the register's number for a virtual one.
pub open spec fn reg_name(reg: Reg) -> Seq<char> {
    match reg.real_spec() {
        Some(rreg) => match rreg.class {
            RegClass::Int => ireg_name(rreg.hw_enc_spec()),
            RegClass::Float => vreg_name(rreg.hw_enc_spec()),
        },
        None => seq!['%', 'v'] + decimal(reg.vreg as nat),
    }
}

/// Whether a register has a name: a physical integer register must be one
/// of x0 to x31 or the stack pointer.
pub open spec fn has_name(reg: Reg) -> bool {
    reg.is_real_spec() && reg.class == RegClass::Int ==> (reg.vreg % 64 < 32 || reg.vreg % 64
        == 63)
}

/// The name of a register at an operand size: the 32-bit name of an integer
/// register whose 64-bit name starts with `x` starts with `w` instead.
pub open spec fn ireg_sized_name(reg: Reg, size: OperandSize) -> Seq<char> {
    let s = reg_name(reg);
    if reg.class != RegClass::Int || size != OperandSize::Size32 {
        s
    } else if s.len() > 0 && s[0] == 'x' {
        seq!['w'] + s.skip(1)
    } else {
        s
    }
}

/// The letter that names a vector register used as a scalar of `size`.
pub open spec fn scalar_prefix(size: ScalarSize) -> char {
    match size {
        ScalarSize::Size8 => 'b',
        ScalarSize::Size16 => 'h',
        ScalarSize::Size32 => 's',
        ScalarSize::Size64 => 'd',
        ScalarSize::Size128 => 'q',
    }
}

/// The name of a register used as a scalar of `size`: a vector register's
/// leading `v` is replaced by the letter for the size.
pub open spec fn vreg_scalar_name(reg: Reg, size: ScalarSize) -> Seq<char> {
    let s = reg_name(reg);
    if reg.class != RegClass::Float {
        s
    } else if s.len() > 0 && s[0] == 'v' {
        seq![scalar_prefix(size)] + s.skip(1)
    } else {
        s
    }
}

/// The suffix that names the lane arrangement `size`.
pub open spec fn vector_suffix(size: VectorSize) -> Seq<char> {
    match size {
        VectorSize::Size8x8 => seq!['.', '8', 'b'],
        VectorSize::Size8x16 => seq!['.', '1', '6', 'b'],
        VectorSize::Size16x4 => seq!['.', '4', 'h'],
        VectorSize::Size16x8 => seq!['.', '8', 'h'],
        VectorSize::Size32x2 => seq!['.', '2', 's'],
        VectorSize::Size32x4 => seq!['.', '4', 's'],
        VectorSize::Size64x2 => seq!['.', '2', 'd'],
    }
}

/// The suffix that names a lane of `size`, for sizes below 128 bits.
pub open spec fn element_suffix(size: ScalarSize) -> Seq<char> {
    seq!['.', scalar_prefix(size)]
}

/// The name of lane `idx` of a vector register with lanes of `size`.
pub open spec fn vreg_element_name(reg: Reg, idx: nat, size: ScalarSize) -> Seq<char> {
    reg_name(reg) + element_suffix(size) + seq!['['] + decimal(idx) + seq![']']
}

/// x0 to x28 are named `x` and their number; at 32 bits the name starts with
/// `w` instead, and at 64 bits it is unchanged.
pub proof fn lemma_xreg_names(num: nat)
    requires
        num < 29,
    ensures
        reg_name(xreg_spec(num)) == seq!['x'] + decimal(num),
        ireg_sized_name(xreg_spec(num), OperandSize::Size32) == seq!['w'] + decimal(num),
        ireg_sized_name(xreg_spec(num), OperandSize::Size64) == seq!['x'] + decimal(num),
{
    let s = seq!['x'] + decimal(num);
    assert(s[0] == 'x');
    assert(s.skip(1) =~= decimal(num));
}

/// The frame pointer, the link register and the zero register have names of
/// their own; at 32 bits the zero register is `wzr`.
pub proof fn lemma_special_reg_names()
    ensures
        reg_name(xreg_spec(29)) == seq!['f', 'p'],
        reg_name(xreg_spec(30)) == seq!['l', 'r'],
        ireg_sized_name(xreg_spec(31), OperandSize::Size32) == seq!['w', 'z', 'r'],
        ireg_sized_name(xreg_spec(63), OperandSize::Size32) == seq!['s', 'p'],
{
    assert(reg_name(xreg_spec(31)) =~= seq!['x', 'z', 'r']);
    assert(seq!['w'] + seq!['x', 'z', 'r'].skip(1) =~= seq!['w', 'z', 'r']);
    assert(reg_name(xreg_spec(63)) =~= seq!['s', 'p']);
}

/// v0 to v31 are named `v` and their number; used as a scalar the `v` gives
/// way to the letter of the scalar size.
pub proof fn lemma_vreg_names(num: nat, size: ScalarSize)
    requires
        num < 32,
    ensures
        reg_name(vreg_spec(num)) == seq!['v'] + decimal(num),
        vreg_scalar_name(vreg_spec(num), size) == seq![scalar_prefix(size)] + decimal(num),
{
    assert((64 + num) % 64 == num);
    let s = seq!['v'] + decimal(num);
    assert(s[0] == 'v');
    assert(s.skip(1) =~= decimal(num));
}

/// The sized names only change what they are for: the 64-bit name of a
/// register, the integer-size name of a float register and the scalar name
/// of an integer register are its plain name.
pub proof fn lemma_sized_names_of_other_regs(reg: Reg, size: ScalarSize)
    ensures
        ireg_sized_name(reg, OperandSize::Size64) == reg_name(reg),
        reg.class == RegClass::Float ==> ireg_sized_name(reg, OperandSize::Size32) == reg_name(reg),
        reg.class == RegClass::Int ==> vreg_scalar_name(reg, size) == reg_name(reg),
{
}

/// A virtual register is named `%v` and its number under every sizing: the
/// 32-bit integer name and every scalar name leave it as it is.
pub proof fn lemma_virtual_reg_names(reg: Reg, isize: OperandSize, ssize: ScalarSize)
    requires
        !reg.is_real_spec(),
    ensures
        reg_name(reg) == seq!['%', 'v'] + decimal(reg.vreg as nat),
        ireg_sized_name(reg, isize) == seq!['%', 'v'] + decimal(reg.vreg as nat),
        vreg_scalar_name(reg, ssize) == seq!['%', 'v'] + decimal(reg.vreg as nat),
{
}

/// The name of a vector lane carries the lane number in full: the name is the
/// register's name, a dot, the letter of the lane size and, between `[` and
/// `]`, the decimal numeral of the lane number.
pub proof fn lemma_element_name_has_lane(reg: Reg, idx: nat, size: ScalarSize)
    requires
        size != ScalarSize::Size128,
    ensures
        ({
            let name = vreg_element_name(reg, idx, size);
            let k = reg_name(reg).len() as int;
            &&& name.subrange(0, k) == reg_name(reg)
            &&& name[k] == '.'
            &&& name[k + 1] == scalar_prefix(size)
            &&& name[k + 2] == '['
            &&& name.subrange(k + 3, name.len() - 1) == decimal(idx)
            &&& name.last() == ']'
            &&& name.len() == k + 4 + decimal(idx).len()
        }),
{
    let name = vreg_element_name(reg, idx, size);
    let k = reg_name(reg).len() as int;
    assert(name.subrange(0, k) =~= reg_name(reg));
    assert(name.subrange(k + 3, name.len() - 1) =~= decimal(idx));
}

/// The size of one lane of a vector arrangement.
pub open spec fn lane_size(size: VectorSize) -> ScalarSize {
    match size {
        VectorSize::Size8x8 | VectorSize::Size8x16 => ScalarSize::Size8,
        VectorSize::Size16x4 | VectorSize::Size16x8 => ScalarSize::Size16,
        VectorSize::Size32x2 | VectorSize::Size32x4 => ScalarSize::Size32,
        VectorSize::Size64x2 => ScalarSize::Size64,
    }
}

/// Sizes are named without ambiguity: different scalar sizes have different
/// letters, different lane arrangements different suffixes, and the suffix of
/// an arrangement ends with the letter of its lane size, as the element
/// suffix of that lane size does.
pub proof fn lemma_size_names_distinct(s1: ScalarSize, s2: ScalarSize, v1: VectorSize, v2: VectorSize)
    ensures
        s1 != s2 ==> scalar_prefix(s1) != scalar_prefix(s2),
        v1 != v2 ==> vector_suffix(v1) != vector_suffix(v2),
        vector_suffix(v1)[0] == '.',
        vector_suffix(v1).last() == scalar_prefix(lane_size(v1)),
        element_suffix(lane_size(v1)).last() == vector_suffix(v1).last(),
{
    if v1 != v2 {
        if vector_suffix(v1).len() == vector_suffix(v2).len() {
            assert(vector_suffix(v1)[1] != vector_suffix(v2)[1] || vector_suffix(v1).last()
                != vector_suffix(v2).last());
        }
    }
}

/// The string of the literal `lit`, with its characters known.
fn string_of(lit: &str) -> (s: String)
    ensures
        s@ == lit@,
{
    String::from_str(lit)
}

/// The name of an integer register with hardware encoding `hw_enc`.
fn show_ireg(reg: RealReg) -> (s: String)
    requires
        reg.hw_enc_spec() < 32 || reg.hw_enc_spec() == 63,
    ensures
        s@ == ireg_name(reg.hw_enc_spec()),
{
    let hw_enc = reg.hw_enc();
    if hw_enc == 29 {
        proof { reveal_strlit("fp"); }
        let s = string_of("fp");
        assert(s@ =~= ireg_name(29));
        s
    } else if hw_enc == 30 {
        proof { reveal_strlit("lr"); }
        let s = string_of("lr");
        assert(s@ =~= ireg_name(30));
        s
    } else if hw_enc == 31 {
        proof { reveal_strlit("xzr"); }
        let s = string_of("xzr");
        assert(s@ =~= ireg_name(31));
        s
    } else if hw_enc == 63 {
        proof { reveal_strlit("sp"); }
        let s = string_of("sp");
        assert(s@ =~= ireg_name(63));
        s
    } else {
        proof { reveal_strlit("x"); }
        let mut s = string_of("x");
        assert(s@ =~= seq!['x']);
        push_decimal(&mut s, hw_enc as usize);
        s
    }
}

/// The name of a vector register.
fn show_vreg(reg: RealReg) -> (s: String)
    ensures
        s@ == vreg_name(reg.hw_enc_spec()),
{
    proof { reveal_strlit("v"); }
    let mut s = string_of("v");
    assert(s@ =~= seq!['v']);
    let hw_enc = reg.hw_enc();
    assert(hw_enc & 31 == hw_enc % 32) by (bit_vector);
    push_decimal(&mut s, (hw_enc & 31) as usize);
    s
}

/// The name of a register.
fn show_reg(reg: Reg) -> (s: String)
    requires
        has_name(reg),
    ensures
        s@ == reg_name(reg),
{
    if let Some(rreg) = reg.to_real_reg() {
        match rreg.class() {
            RegClass::Int => show_ireg(rreg),
            RegClass::Float => show_vreg(rreg),
        }
    } else {
        proof { reveal_strlit("%v"); }
        let mut s = string_of("%v");
        assert(s@ =~= seq!['%', 'v']);
        push_decimal(&mut s, reg.vreg);
        s
    }
}

/// Whether `s` starts with the character `c`.
fn starts_with_char(s: &String, c: char) -> (b: bool)
    ensures
        b == (s@.len() > 0 && s@[0] == c),
{
    let t = s.as_str();
    t.unicode_len() > 0 && t.get_char(0) == c
}

/// `first` followed by all of `s` but its first character.
fn replace_first(s: &String, first: &str) -> (t: String)
    requires
        s@.len() > 0,
    ensures
        t@ == first@ + s@.skip(1),
{
    let u = s.as_str();
    let rest = u.substring_char(1, u.unicode_len());
    let mut t = String::from_str(first);
    t.append(rest);
    assert(rest@ =~= s@.skip(1));
    t
}

/// The name of the register that the allocator gives `reg`.
pub fn pretty_print_reg(reg: Reg, allocs: &mut AllocationConsumer<'_>) -> (s: String)
    requires
        next_allowed(old(allocs)@, reg),
        has_name(next_reg(old(allocs)@, reg)),
    ensures
        s@ == reg_name(next_reg(old(allocs)@, reg)),
        final(allocs)@ == after_next(old(allocs)@),
{
    let reg = allocs.next(reg);
    show_reg(reg)
}

/// If `reg` denotes an Int-classed reg, make a best-effort attempt to show
/// its name at the 32-bit size.
pub fn show_ireg_sized(reg: Reg, size: OperandSize) -> (s: String)
    requires
        has_name(reg),
    ensures
        s@ == ireg_sized_name(reg, size),
{
    let mut s = show_reg(reg);
    if reg.class() != RegClass::Int || !size.is32() {
        // We can't do any better.
        return s;
    }
    // Change (eg) "x42" into "w42" as appropriate
    if reg.class() == RegClass::Int && size.is32() && starts_with_char(&s, 'x') {
        proof { reveal_strlit("w"); }
        s = replace_first(&s, "w");
    }
    s
}

/// The one-letter string that names a vector register used as a scalar of
/// `size`.
fn scalar_prefix_str(size: ScalarSize) -> (s: &'static str)
    ensures
        s@ == seq![scalar_prefix(size)],
{
    match size {
        ScalarSize::Size8 => {
            proof { reveal_strlit("b"); }
            assert("b"@ =~= seq!['b']);
            "b"
        },
        ScalarSize::Size16 => {
            proof { reveal_strlit("h"); }
            assert("h"@ =~= seq!['h']);
            "h"
        },
        ScalarSize::Size32 => {
            proof { reveal_strlit("s"); }
            assert("s"@ =~= seq!['s']);
            "s"
        },
        ScalarSize::Size64 => {
            proof { reveal_strlit("d"); }
            assert("d"@ =~= seq!['d']);
            "d"
        },
        ScalarSize::Size128 => {
            proof { reveal_strlit("q"); }
            assert("q"@ =~= seq!['q']);
            "q"
        },
    }
}

/// Show a vector register used in a scalar context.
pub fn show_vreg_scalar(reg: Reg, size: ScalarSize) -> (s: String)
    requires
        has_name(reg),
    ensures
        s@ == vreg_scalar_name(reg, size),
{
    let mut s = show_reg(reg);
    if reg.class() != RegClass::Float {
        // We can't do any better.
        return s;
    }
    // Change (eg) "v0" into "d0".
    if starts_with_char(&s, 'v') {
        let replacement = scalar_prefix_str(size);
        s = replace_first(&s, replacement);
    }
    s
}

/// The string of the suffix that names the lane arrangement `size`.
fn vector_suffix_str(size: VectorSize) -> (s: &'static str)
    ensures
        s@ == vector_suffix(size),
{
    match size {
        VectorSize::Size8x8 => {
            proof { reveal_strlit(".8b"); }
            assert(".8b"@ =~= vector_suffix(size));
            ".8b"
        },
        VectorSize::Size8x16 => {
            proof { reveal_strlit(".16b"); }
            assert(".16b"@ =~= vector_suffix(size));
            ".16b"
        },
        VectorSize::Size16x4 => {
            proof { reveal_strlit(".4h"); }
            assert(".4h"@ =~= vector_suffix(size));
            ".4h"
        },
        VectorSize::Size16x8 => {
            proof { reveal_strlit(".8h"); }
            assert(".8h"@ =~= vector_suffix(size));
            ".8h"
        },
        VectorSize::Size32x2 => {
            proof { reveal_strlit(".2s"); }
            assert(".2s"@ =~= vector_suffix(size));
            ".2s"
        },
        VectorSize::Size32x4 => {
            proof { reveal_strlit(".4s"); }
            assert(".4s"@ =~= vector_suffix(size));
            ".4s"
        },
        VectorSize::Size64x2 => {
            proof { reveal_strlit(".2d"); }
            assert(".2d"@ =~= vector_suffix(size));
            ".2d"
        },
    }
}

/// Show a vector register.
pub fn show_vreg_vector(reg: Reg, size: VectorSize) -> (s: String)
    requires
        reg.class == RegClass::Float,
    ensures
        s@ == reg_name(reg) + vector_suffix(size),
{
    let mut s = show_reg(reg);
    let suffix = vector_suffix_str(size);
    s.append(suffix);
    s
}

/// The string of the suffix that names a lane of `size`.
fn element_suffix_str(size: ScalarSize) -> (s: &'static str)
    requires
        size != ScalarSize::Size128,
    ensures
        s@ == element_suffix(size),
{
    match size {
        ScalarSize::Size8 => {
            proof { reveal_strlit(".b"); }
            assert(".b"@ =~= element_suffix(size));
            ".b"
        },
        ScalarSize::Size16 => {
            proof { reveal_strlit(".h"); }
            assert(".h"@ =~= element_suffix(size));
            ".h"
        },
        ScalarSize::Size32 => {
            proof { reveal_strlit(".s"); }
            assert(".s"@ =~= element_suffix(size));
            ".s"
        },
        _ => {
            proof { reveal_strlit(".d"); }
            assert(".d"@ =~= element_suffix(size));
            ".d"
        },
    }
}

/// Show an indexed vector element.
pub fn show_vreg_element(reg: Reg, idx: u8, size: ScalarSize) -> (s: String)
    requires
        reg.class == RegClass::Float,
        size != ScalarSize::Size128,
    ensures
        s@ == vreg_element_name(reg, idx as nat, size),
{
    let mut s = show_reg(reg);
    let suffix = element_suffix_str(size);
    s.append(suffix);
    proof { reveal_strlit("["); reveal_strlit("]"); }
    s.append("[");
    push_decimal(&mut s, idx as usize);
    s.append("]");
    assert(s@ =~= vreg_element_name(reg, idx as nat, size));
    s
}

/// The 32- or 64-bit name of the register that the allocator gives `reg`.
pub fn pretty_print_ireg(reg: Reg, size: OperandSize, allocs: &mut AllocationConsumer<'_>) -> (s:
    String)
    requires
        next_allowed(old(allocs)@, reg),
        has_name(next_reg(old(allocs)@, reg)),
    ensures
        s@ == ireg_sized_name(next_reg(old(allocs)@, reg), size),
        final(allocs)@ == after_next(old(allocs)@),
{
    let reg = allocs.next(reg);
    show_ireg_sized(reg, size)
}

/// The scalar name of the register that the allocator gives `reg`.
pub fn pretty_print_vreg_scalar(
    reg: Reg,
    size: ScalarSize,
    allocs: &mut AllocationConsumer<'_>,
) -> (s: String)
    requires
        next_allowed(old(allocs)@, reg),
        has_name(next_reg(old(allocs)@, reg)),
    ensures
        s@ == vreg_scalar_name(next_reg(old(allocs)@, reg), size),
        final(allocs)@ == after_next(old(allocs)@),
{
    let reg = allocs.next(reg);
    show_vreg_scalar(reg, size)
}

/// The vector name of the register that the allocator gives `reg`.
pub fn pretty_print_vreg_vector(
    reg: Reg,
    size: VectorSize,
    allocs: &mut AllocationConsumer<'_>,
) -> (s: String)
    requires
        next_allowed(old(allocs)@, reg),
        next_reg(old(allocs)@, reg).class == RegClass::Float,
    ensures
        s@ == reg_name(next_reg(old(allocs)@, reg)) + vector_suffix(size),
        final(allocs)@ == after_next(old(allocs)@),
{
    let reg = allocs.next(reg);
    show_vreg_vector(reg, size)
}

/// The name of lane `idx` of the register that the allocator gives `reg`; the
/// lane number is cut to eight bits.
pub fn pretty_print_vreg_element(
    reg: Reg,
    idx: usize,
    size: ScalarSize,
    allocs: &mut AllocationConsumer<'_>,
) -> (s: String)
    requires
        next_allowed(old(allocs)@, reg),
        next_reg(old(allocs)@, reg).class == RegClass::Float,
        size != ScalarSize::Size128,
    ensures
        s@ == vreg_element_name(next_reg(old(allocs)@, reg), idx as nat % 256, size),
        final(allocs)@ == after_next(old(allocs)@),
{
    let reg = allocs.next(reg);
    show_vreg_element(reg, (idx % 256) as u8, size)
}

} // verus!
