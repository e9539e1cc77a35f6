use colorguard::machinst::{Allocation, AllocationConsumer, Flags, PReg, Reg, RegClass};
use colorguard::regs::{
    create_reg_env, fp_reg, link_reg, pretty_print_ireg, pretty_print_reg,
    pretty_print_vreg_element, pretty_print_vreg_scalar, pretty_print_vreg_vector,
    show_ireg_sized, show_vreg_element, show_vreg_scalar, show_vreg_vector, spilltmp_reg,
    stack_reg, tmp2_reg, vreg, writable_fp_reg, writable_link_reg, writable_spilltmp_reg,
    writable_stack_reg, writable_tmp2_reg, writable_vreg, writable_xreg, writable_zero_reg, xreg,
    zero_reg, PINNED_REG,
};
use colorguard::sizes::{OperandSize, ScalarSize, VectorSize};

fn ireg_of(n: usize) -> Reg {
    Reg { vreg: n, class: RegClass::Int }
}

fn freg_of(n: usize) -> Reg {
    Reg { vreg: n, class: RegClass::Float }
}

fn name(reg: Reg) -> String {
    pretty_print_reg(reg, &mut AllocationConsumer::new(&[]))
}

#[test]
fn xreg_numbers_integer_registers() {
    for n in 0..31u8 {
        assert_eq!(xreg(n), ireg_of(n as usize));
        assert_eq!(writable_xreg(n).to_reg(), xreg(n));
        assert!(xreg(n).is_real());
        assert_eq!(xreg(n).to_real_reg().unwrap().hw_enc(), n);
    }
}

#[test]
fn vreg_numbers_float_registers_above_the_integer_ones() {
    for n in 0..32u8 {
        assert_eq!(vreg(n), freg_of(64 + n as usize));
        assert_eq!(writable_vreg(n).to_reg(), vreg(n));
        assert_eq!(vreg(n).class(), RegClass::Float);
        assert_eq!(vreg(n).to_real_reg().unwrap().hw_enc(), n);
    }
}

#[test]
fn special_registers() {
    assert_eq!(zero_reg(), ireg_of(31));
    assert_eq!(stack_reg(), ireg_of(63));
    assert_ne!(zero_reg(), stack_reg());
    assert_eq!(zero_reg().to_real_reg().unwrap().hw_enc() & 31, stack_reg().to_real_reg().unwrap().hw_enc() & 31);
    assert_eq!(link_reg(), xreg(30));
    assert_eq!(fp_reg(), xreg(29));
    assert_eq!(spilltmp_reg(), xreg(16));
    assert_eq!(tmp2_reg(), xreg(17));
    assert_eq!(writable_zero_reg().to_reg(), zero_reg());
    assert_eq!(writable_stack_reg().to_reg(), stack_reg());
    assert_eq!(writable_link_reg().to_reg(), link_reg());
    assert_eq!(writable_fp_reg().to_reg(), fp_reg());
    assert_eq!(writable_spilltmp_reg().to_reg(), spilltmp_reg());
    assert_eq!(writable_tmp2_reg().to_reg(), tmp2_reg());
    assert_eq!(PINNED_REG, 21);
}

#[test]
fn preg_matches_regalloc2() {
    for hw in 0..64usize {
        for (class, ra_class) in [
            (RegClass::Int, regalloc2::RegClass::Int),
            (RegClass::Float, regalloc2::RegClass::Float),
        ] {
            let ours = PReg::new(hw, class);
            let theirs = regalloc2::PReg::new(hw, ra_class);
            assert_eq!(ours.index(), theirs.index());
            assert_eq!(ours.hw_enc(), hw);
            assert_eq!(ours.class(), class);
        }
    }
    assert_eq!(PReg::new(5, RegClass::Float).index(), 69);
    assert_eq!(PReg::from_index(200).index(), 72);
    assert_eq!(PReg::from_index(200).class(), RegClass::Float);
    assert_eq!(PReg::from_index(200).hw_enc(), 8);
}

fn indices(regs: &[PReg]) -> Vec<usize> {
    regs.iter().map(|p| p.index()).collect()
}

#[test]
fn reg_env_without_pinned_reg() {
    let env = create_reg_env(&Flags { enable_pinned_reg: false });
    assert_eq!(indices(&env.preferred_regs_by_class[0]), (0..16).collect::<Vec<_>>());
    let mut float: Vec<usize> = (64..72).collect();
    float.extend(80..96);
    assert_eq!(indices(&env.preferred_regs_by_class[1]), float);
    assert_eq!(indices(&env.non_preferred_regs_by_class[0]), vec![22, 23, 24, 25, 26, 27, 28, 21]);
    assert_eq!(indices(&env.non_preferred_regs_by_class[1]), (72..80).collect::<Vec<_>>());
    assert!(env.fixed_stack_slots.is_empty());
}

#[test]
fn reg_env_with_pinned_reg() {
    let env = create_reg_env(&Flags { enable_pinned_reg: true });
    assert_eq!(indices(&env.non_preferred_regs_by_class[0]), vec![22, 23, 24, 25, 26, 27, 28]);
    assert_eq!(env.preferred_regs_by_class[0].len(), 16);
    assert_eq!(env.preferred_regs_by_class[1].len(), 24);
    assert_eq!(env.non_preferred_regs_by_class[1].len(), 8);
}

#[test]
fn reg_env_has_no_duplicates_and_no_reserved_regs() {
    for pinned in [false, true] {
        let env = create_reg_env(&Flags { enable_pinned_reg: pinned });
        let mut all = Vec::new();
        for c in 0..2 {
            for p in env.preferred_regs_by_class[c].iter().chain(env.non_preferred_regs_by_class[c].iter()) {
                assert_eq!(p.class(), if c == 0 { RegClass::Int } else { RegClass::Float });
                all.push(p.index());
            }
        }
        let mut sorted = all.clone();
        sorted.sort();
        sorted.dedup();
        assert_eq!(sorted.len(), all.len());
        for reserved in [16, 17, 18, 19, 20, 29, 30, 31, 63] {
            assert!(!all.contains(&reserved));
        }
        assert_eq!(all.contains(&21), !pinned);
        for v in 64..96 {
            assert!(all.contains(&v));
        }
    }
}

#[test]
fn register_names() {
    assert_eq!(name(xreg(0)), "x0");
    assert_eq!(name(xreg(3)), "x3");
    assert_eq!(name(xreg(28)), "x28");
    assert_eq!(name(fp_reg()), "fp");
    assert_eq!(name(link_reg()), "lr");
    assert_eq!(name(zero_reg()), "xzr");
    assert_eq!(name(stack_reg()), "sp");
    assert_eq!(name(vreg(0)), "v0");
    assert_eq!(name(vreg(31)), "v31");
    assert_eq!(name(Reg::from_vreg(200, RegClass::Int)), "%v200");
    assert_eq!(name(Reg::from_vreg(128, RegClass::Float)), "%v128");
}

#[test]
fn sized_integer_register_names() {
    assert_eq!(show_ireg_sized(xreg(3), OperandSize::Size32), "w3");
    assert_eq!(show_ireg_sized(xreg(3), OperandSize::Size64), "x3");
    assert_eq!(show_ireg_sized(xreg(17), OperandSize::Size32), "w17");
    assert_eq!(show_ireg_sized(zero_reg(), OperandSize::Size32), "wzr");
    assert_eq!(show_ireg_sized(stack_reg(), OperandSize::Size32), "sp");
    assert_eq!(show_ireg_sized(fp_reg(), OperandSize::Size32), "fp");
    assert_eq!(show_ireg_sized(vreg(3), OperandSize::Size32), "v3");
    assert_eq!(show_ireg_sized(Reg::from_vreg(300, RegClass::Int), OperandSize::Size32), "%v300");
}

#[test]
fn scalar_vector_register_names() {
    assert_eq!(show_vreg_scalar(vreg(3), ScalarSize::Size8), "b3");
    assert_eq!(show_vreg_scalar(vreg(3), ScalarSize::Size16), "h3");
    assert_eq!(show_vreg_scalar(vreg(3), ScalarSize::Size32), "s3");
    assert_eq!(show_vreg_scalar(vreg(13), ScalarSize::Size64), "d13");
    assert_eq!(show_vreg_scalar(vreg(31), ScalarSize::Size128), "q31");
    assert_eq!(show_vreg_scalar(xreg(3), ScalarSize::Size64), "x3");
    assert_eq!(show_vreg_scalar(Reg::from_vreg(130, RegClass::Float), ScalarSize::Size64), "%v130");
}

#[test]
fn vector_register_names() {
    assert_eq!(show_vreg_vector(vreg(0), VectorSize::Size8x8), "v0.8b");
    assert_eq!(show_vreg_vector(vreg(2), VectorSize::Size8x16), "v2.16b");
    assert_eq!(show_vreg_vector(vreg(4), VectorSize::Size16x4), "v4.4h");
    assert_eq!(show_vreg_vector(vreg(5), VectorSize::Size16x8), "v5.8h");
    assert_eq!(show_vreg_vector(vreg(6), VectorSize::Size32x2), "v6.2s");
    assert_eq!(show_vreg_vector(vreg(7), VectorSize::Size32x4), "v7.4s");
    assert_eq!(show_vreg_vector(vreg(30), VectorSize::Size64x2), "v30.2d");
}

#[test]
fn vector_element_names() {
    assert_eq!(show_vreg_element(vreg(1), 0, ScalarSize::Size8), "v1.b[0]");
    assert_eq!(show_vreg_element(vreg(1), 7, ScalarSize::Size16), "v1.h[7]");
    assert_eq!(show_vreg_element(vreg(1), 3, ScalarSize::Size32), "v1.s[3]");
    assert_eq!(show_vreg_element(vreg(12), 1, ScalarSize::Size64), "v12.d[1]");
    assert_eq!(show_vreg_element(vreg(12), 255, ScalarSize::Size64), "v12.d[255]");
}

#[test]
fn pretty_printing_takes_allocations_in_order() {
    let allocs = [
        Allocation::Reg(PReg::new(5, RegClass::Int)),
        Allocation::Reg(PReg::new(9, RegClass::Float)),
        Allocation::Reg(PReg::new(2, RegClass::Float)),
        Allocation::Reg(PReg::new(3, RegClass::Float)),
        Allocation::Reg(PReg::new(4, RegClass::Float)),
        Allocation::Reg(PReg::new(7, RegClass::Int)),
    ];
    let mut consumer = AllocationConsumer::new(&allocs);
    assert_eq!(pretty_print_reg(Reg::from_vreg(200, RegClass::Int), &mut consumer), "x5");
    assert_eq!(pretty_print_vreg_scalar(Reg::from_vreg(201, RegClass::Float), ScalarSize::Size64, &mut consumer), "d9");
    assert_eq!(pretty_print_vreg_vector(Reg::from_vreg(202, RegClass::Float), VectorSize::Size32x4, &mut consumer), "v2.4s");
    assert_eq!(pretty_print_vreg_element(Reg::from_vreg(203, RegClass::Float), 259, ScalarSize::Size32, &mut consumer), "v3.s[3]");
    assert_eq!(pretty_print_vreg_scalar(vreg(4), ScalarSize::Size32, &mut consumer), "s4");
    assert_eq!(pretty_print_ireg(xreg(7), OperandSize::Size32, &mut consumer), "w7");
    // The allocations have run out: registers are printed as they are.
    assert_eq!(pretty_print_reg(Reg::from_vreg(204, RegClass::Int), &mut consumer), "%v204");
    assert_eq!(pretty_print_ireg(xreg(1), OperandSize::Size64, &mut consumer), "x1");
}

#[test]
fn pretty_printing_before_allocation() {
    let mut consumer = AllocationConsumer::new(&[]);
    assert_eq!(pretty_print_vreg_element(vreg(2), 1, ScalarSize::Size8, &mut consumer), "v2.b[1]");
    assert_eq!(pretty_print_vreg_vector(vreg(2), VectorSize::Size64x2, &mut consumer), "v2.2d");
    assert_eq!(pretty_print_ireg(zero_reg(), OperandSize::Size32, &mut consumer), "wzr");
}
