use gbcore::cpu::check_sub_half_carry;
use gbcore::cpu::op_implemented;
use gbcore::cpu::Core;
use gbcore::registers::RegisterName;

#[test]
fn test_stack() {
    let mut testcore = Core::new();
    testcore.push(0xFC55);
    assert_eq!(testcore.pop(), 0xFC55);

    testcore.push(0x1234);
    testcore.push(0x4F32);
    assert_eq!(testcore.pop(), 0x4F32);
    assert_eq!(testcore.pop(), 0x1234);

    testcore.push(0xABCD);
    testcore.push(0xDFD4);
    testcore.push(0x8642);
    assert_eq!(testcore.pop(), 0x8642);
    assert_eq!(testcore.pop(), 0xDFD4);
    assert_eq!(testcore.pop(), 0xABCD);
}

#[test]
fn test_inc_reg() {
    let mut testcore = Core::new();
    testcore.inc_reg(RegisterName::l);
    assert_eq!(testcore.reg.l, 0x4E);
}

#[test]
fn test_dec_reg() {
    let mut testcore = Core::new();
    testcore.dec_reg(RegisterName::l);
    assert_eq!(testcore.reg.l, 0x4C);
}

#[test]
fn test_sub_half_carry() {
    assert_eq!(check_sub_half_carry(0b00000000, 0x00000000), false);
    assert_eq!(check_sub_half_carry(0b10100110, 0x00000000), false);
    assert_eq!(check_sub_half_carry(0b10101100, 0b00000001), false);
    assert_eq!(check_sub_half_carry(0b10000000, 0b00000001), true);
    assert_eq!(check_sub_half_carry(0b10010000, 0b00000001), true);
}

#[test]
fn test_inc_wraps_to_zero() {
    // INC of 0xFF yields 0 with Z=1, H=1.
    let mut core = Core::new();
    core.reg.a = 0xFF;
    core.inc_reg(RegisterName::a);
    assert_eq!(core.reg.a, 0x00);
    assert_eq!(core.reg.get_z(), true);
    assert_eq!(core.reg.get_h(), true);
    assert_eq!(core.reg.get_n(), false);
}

#[test]
fn test_dec_wraps_to_ff() {
    // DEC of 0x00 yields 0xFF with N=1, H=1.
    let mut core = Core::new();
    core.reg.b = 0x00;
    core.dec_reg(RegisterName::b);
    assert_eq!(core.reg.b, 0xFF);
    assert_eq!(core.reg.get_n(), true);
    assert_eq!(core.reg.get_h(), true);
    assert_eq!(core.reg.get_z(), false);
}

#[test]
fn test_inc_dec_keep_carry() {
    let mut core = Core::new();
    core.reg.set_c(true);
    core.reg.a = 0xFF;
    core.inc_reg(RegisterName::a);
    assert_eq!(core.reg.get_c(), true);
    core.dec_reg(RegisterName::a);
    assert_eq!(core.reg.get_c(), true);
}

#[test]
fn test_add_a_half_and_carry() {
    // ADD A,A when A=0x80 yields A=0x00, Z=1, H=0, C=1.
    let mut core = Core::new();
    core.reg.a = 0x80;
    core.add_a(0x80);
    assert_eq!(core.reg.a, 0x00);
    assert_eq!(core.reg.get_z(), true);
    assert_eq!(core.reg.get_h(), false);
    assert_eq!(core.reg.get_c(), true);
    assert_eq!(core.reg.get_n(), false);
}

#[test]
fn test_adc_carry_chain() {
    let mut core = Core::new();
    core.reg.a = 0xFF;
    core.reg.set_c(true);
    core.adc_a(0x00);
    assert_eq!(core.reg.a, 0x00);
    assert_eq!(core.reg.get_z(), true);
    assert_eq!(core.reg.get_h(), true);
    assert_eq!(core.reg.get_c(), true);
}

#[test]
fn test_sub_and_sbc() {
    let mut core = Core::new();
    core.reg.a = 0x10;
    core.sub_a(0x01);
    assert_eq!(core.reg.a, 0x0F);
    assert_eq!(core.reg.get_n(), true);
    assert_eq!(core.reg.get_h(), true);
    assert_eq!(core.reg.get_c(), false);

    core.reg.a = 0x00;
    core.reg.set_c(true);
    core.subc_a(0x00);
    assert_eq!(core.reg.a, 0xFF);
    assert_eq!(core.reg.get_c(), true);
    assert_eq!(core.reg.get_n(), true);
}

#[test]
fn test_logic_ops() {
    let mut core = Core::new();
    core.reg.a = 0b1100_1010;
    core.and_a(0b1010_1010);
    assert_eq!(core.reg.a, 0b1000_1010);
    assert_eq!(core.reg.get_h(), true);
    assert_eq!(core.reg.get_c(), false);

    core.reg.a = 0x0F;
    core.or_a(0xF0);
    assert_eq!(core.reg.a, 0xFF);
    assert_eq!(core.reg.get_z(), false);

    core.reg.a = 0x5A;
    core.xor_a(0x5A);
    assert_eq!(core.reg.a, 0x00);
    assert_eq!(core.reg.get_z(), true);
}

#[test]
fn test_cp_sets_flags_only() {
    let mut core = Core::new();
    core.reg.a = 0x42;
    core.cp_a(0x42);
    assert_eq!(core.reg.a, 0x42);
    assert_eq!(core.reg.get_z(), true);
    core.cp_a(0x50);
    assert_eq!(core.reg.get_c(), true);
    assert_eq!(core.reg.get_z(), false);
}

#[test]
fn test_add_hl_flags() {
    let mut core = Core::new();
    core.reg.set_hl(0x0FFF);
    core.add_hl(0x0001);
    assert_eq!(core.reg.get_hl(), 0x1000);
    assert_eq!(core.reg.get_h(), true);
    assert_eq!(core.reg.get_c(), false);

    core.reg.set_hl(0xFFFF);
    core.add_hl(0x0001);
    assert_eq!(core.reg.get_hl(), 0x0000);
    assert_eq!(core.reg.get_c(), true);
    assert_eq!(core.reg.get_n(), false);
}

#[test]
fn test_add_hl_keeps_z() {
    let mut core = Core::new();
    core.reg.set_z(true);
    core.reg.set_hl(0x1234);
    core.add_hl(0x0001);
    assert_eq!(core.reg.get_z(), true);
}

#[test]
fn test_push_pop_wraps_sp() {
    let mut core = Core::new();
    core.reg.sp = 0x0001;
    core.push(0xBEEF);
    assert_eq!(core.reg.sp, 0xFFFF);
    let v = core.pop();
    assert_eq!(core.reg.sp, 0x0001);
    // SP wrapped through 0x0000 and 0xFFFF: the high byte went to 0x0000
    // (ROM, dropped) and the low byte to 0xFFFF (IE, dropped), so the pop
    // reads zeroes back.
    assert_eq!(v, 0x0000);
}

#[test]
fn test_op_implemented_set() {
    assert!(!op_implemented(0x10));
    assert!(!op_implemented(0xD3));
    assert!(!op_implemented(0xE8));
    assert!(!op_implemented(0xF9));
    assert!(!op_implemented(0xFD));
    assert!(op_implemented(0x00));
    assert!(op_implemented(0xCB));
    assert!(op_implemented(0xFF));
}

#[test]
fn test_can_step_reports_opcode() {
    let mut core = Core::new();
    core.reg.pc = 0xC000;
    core.mem.set_mem(0xC000, 0x10);
    assert!(!core.can_step());
    core.mem.set_mem(0xC000, 0x00);
    assert!(core.can_step());
}
