use gbcore::cpu::Core;

/// A core whose ROM holds `bytes` starting at address `at`, zeroes
/// elsewhere.
fn boot_with(at: u16, bytes: &[u8]) -> Core {
    let mut core = Core::new();
    let mut img: Vec<u8> = vec![0u8; 0x8000];
    for (k, b) in bytes.iter().enumerate() {
        img[at as usize + k] = *b;
    }
    core.mem.rom.load(&img);
    core
}

#[test]
fn test_ld_b_a() {
    // Register-to-register move: initial A=0x42, execute 0x47 (LD B,A).
    let mut core = boot_with(0x0100, &[0x47]);
    core.reg.a = 0x42;
    core.step();
    assert_eq!(core.reg.b, 0x42);
    assert_eq!(core.reg.a, 0x42);
    assert_eq!(core.reg.pc, 0x0101);
    assert_eq!(core.mem.timer.cycles, 4);
}

#[test]
fn test_immediate_load_chain() {
    // Bytes at PC: 06 11 0E 22 21 34 12; three steps load B, C and HL.
    let mut core = boot_with(0x0100, &[0x06, 0x11, 0x0E, 0x22, 0x21, 0x34, 0x12]);
    core.step();
    core.step();
    core.step();
    assert_eq!(core.reg.b, 0x11);
    assert_eq!(core.reg.c, 0x22);
    assert_eq!(core.reg.get_hl(), 0x1234);
    assert_eq!(core.reg.pc, 0x0107);
    assert_eq!(core.mem.timer.cycles, 28);
}

#[test]
fn test_xor_a_clears() {
    // XOR A: A becomes 0 and F holds only Z.
    let mut core = boot_with(0x0100, &[0xAF]);
    core.step();
    assert_eq!(core.reg.a, 0x00);
    assert_eq!(core.reg.f, 0b1000_0000);
    assert_eq!(core.reg.pc, 0x0101);
    assert_eq!(core.mem.timer.cycles, 4);
}

#[test]
fn test_jr_not_taken() {
    // JR NZ,+5 with Z set falls through: PC+2, 8 cycles.
    let mut core = boot_with(0x0100, &[0x20, 0x05]);
    core.reg.set_z(true);
    core.step();
    assert_eq!(core.reg.pc, 0x0102);
    assert_eq!(core.mem.timer.cycles, 8);
}

#[test]
fn test_jr_taken_backwards() {
    // JR NZ,-2 at 0x0100 with Z clear lands back on itself: 0x0102 - 2.
    let mut core = boot_with(0x0100, &[0x20, 0xFE]);
    core.reg.set_z(false);
    core.step();
    assert_eq!(core.reg.pc, 0x0100);
    assert_eq!(core.mem.timer.cycles, 12);
}

#[test]
fn test_call_and_ret() {
    // CALL 0x2000 at 0x0100, RET at 0x2000.
    let mut core = boot_with(0x0100, &[0xCD, 0x00, 0x20]);
    let mut img: Vec<u8> = vec![0u8; 0x8000];
    img[0x0100] = 0xCD;
    img[0x0101] = 0x00;
    img[0x0102] = 0x20;
    img[0x2000] = 0xC9;
    core.mem.rom.load(&img);
    assert_eq!(core.reg.sp, 0xFFFE);
    core.step();
    assert_eq!(core.reg.pc, 0x2000);
    assert_eq!(core.reg.sp, 0xFFFC);
    assert_eq!(core.mem.get_mem(0xFFFD), 0x01);
    assert_eq!(core.mem.get_mem(0xFFFC), 0x03);
    core.step();
    assert_eq!(core.reg.pc, 0x0103);
    assert_eq!(core.reg.sp, 0xFFFE);
}

#[test]
fn test_cb_swap() {
    // CB 37 swaps the nibbles of A and clears every flag (Z=0 here).
    let mut core = boot_with(0x0100, &[0xCB, 0x37]);
    core.reg.a = 0xAB;
    core.step();
    assert_eq!(core.reg.a, 0xBA);
    assert_eq!(core.reg.f, 0x00);
    assert_eq!(core.reg.pc, 0x0102);
    assert_eq!(core.mem.timer.cycles, 8);
}

#[test]
fn test_rst_pushes_and_jumps() {
    // RST 0x00 at PC=0x1234 pushes 0x1235 and sets PC=0x0000.
    let mut core = boot_with(0x1234, &[0xC7]);
    core.reg.pc = 0x1234;
    core.step();
    assert_eq!(core.reg.pc, 0x0000);
    assert_eq!(core.reg.sp, 0xFFFC);
    assert_eq!(core.mem.get_mem(0xFFFD), 0x12);
    assert_eq!(core.mem.get_mem(0xFFFC), 0x35);
}

#[test]
fn test_jp_absolute() {
    // Unconditional JP 0x4000 lands exactly on the target: the handler
    // reports length 0 so the post-dispatch advance adds nothing.
    let mut core = boot_with(0x0100, &[0xC3, 0x00, 0x40]);
    core.step();
    assert_eq!(core.reg.pc, 0x4000);
}

#[test]
fn test_jp_hl() {
    let mut core = boot_with(0x0100, &[0xE9]);
    core.reg.set_hl(0x3456);
    core.step();
    assert_eq!(core.reg.pc, 0x3456);
}

#[test]
fn test_halt_is_nop_here() {
    let mut core = boot_with(0x0100, &[0x76]);
    core.step();
    assert_eq!(core.reg.pc, 0x0101);
    assert_eq!(core.mem.timer.cycles, 4);
}

#[test]
fn test_pop_push_restores_stack() {
    // POP DE then PUSH DE on a valid stack restores SP and the memory
    // image.
    let mut core = Core::new();
    core.reg.pc = 0xC000;
    core.mem.set_mem(0xC000, 0xD1);
    core.mem.set_mem(0xC001, 0xD5);
    core.reg.sp = 0xD000;
    core.mem.set_mem(0xD000, 0x34);
    core.mem.set_mem(0xD001, 0x12);
    core.step();
    assert_eq!(core.reg.get_de(), 0x1234);
    assert_eq!(core.reg.sp, 0xD002);
    core.step();
    assert_eq!(core.reg.sp, 0xD000);
    assert_eq!(core.mem.get_mem(0xD000), 0x34);
    assert_eq!(core.mem.get_mem(0xD001), 0x12);
}

#[test]
fn test_pop_push_af_masks_low_nibble() {
    // Through AF the restored image has the low nibble of the F byte
    // cleared.
    let mut core = Core::new();
    core.reg.pc = 0xC000;
    core.mem.set_mem(0xC000, 0xF1);
    core.mem.set_mem(0xC001, 0xF5);
    core.reg.sp = 0xD000;
    core.mem.set_mem(0xD000, 0x35);
    core.mem.set_mem(0xD001, 0x12);
    core.step();
    assert_eq!(core.reg.get_af(), 0x1230);
    core.step();
    assert_eq!(core.reg.sp, 0xD000);
    assert_eq!(core.mem.get_mem(0xD000), 0x30);
    assert_eq!(core.mem.get_mem(0xD001), 0x12);
}

#[test]
fn test_timer_accumulates_costs() {
    // The timer counts exactly the sum of the executed cycle costs:
    // NOP (4) + LD B,n (8) + PUSH BC (16) + POP BC (12) = 40.
    let mut core = boot_with(0x0100, &[0x00, 0x06, 0x7E, 0xC5, 0xC1]);
    core.step();
    assert_eq!(core.mem.timer.cycles, 4);
    core.step();
    assert_eq!(core.mem.timer.cycles, 12);
    core.step();
    assert_eq!(core.mem.timer.cycles, 28);
    core.step();
    assert_eq!(core.mem.timer.cycles, 40);
}

#[test]
fn test_display_ly_follows_cycles() {
    // 120 NOPs cost 480 cycles: one full scanline of 456 cycles has
    // passed, so LY reads 1 with 24 cycles carried over.
    let mut core = Core::new();
    for _ in 0..120 {
        core.step();
    }
    assert_eq!(core.mem.timer.cycles, 480);
    assert_eq!(core.mem.get_mem(0xFF44), 1);
    assert_eq!(core.mem.disp.ly_coord, 1);
    assert_eq!(core.mem.disp.steps, 24);
}

#[test]
fn test_daa_after_bcd_add() {
    // 0x15 + 0x27 in BCD is 0x42: ADD A,n then DAA.
    let mut core = boot_with(0x0100, &[0xC6, 0x27, 0x27]);
    core.reg.a = 0x15;
    core.step();
    assert_eq!(core.reg.a, 0x3C);
    core.step();
    assert_eq!(core.reg.a, 0x42);
    assert_eq!(core.reg.get_z(), false);
    assert_eq!(core.reg.get_c(), false);
    assert_eq!(core.reg.get_h(), false);
}

#[test]
fn test_scf_ccf() {
    let mut core = boot_with(0x0100, &[0x37, 0x3F]);
    core.reg.set_c(false);
    core.step();
    assert_eq!(core.reg.get_c(), true);
    core.step();
    assert_eq!(core.reg.get_c(), false);
}

#[test]
fn test_cpl() {
    let mut core = boot_with(0x0100, &[0x2F]);
    core.reg.a = 0x35;
    core.step();
    assert_eq!(core.reg.a, 0xCA);
    assert_eq!(core.reg.get_n(), true);
    assert_eq!(core.reg.get_h(), true);
}

#[test]
fn test_rlca() {
    let mut core = boot_with(0x0100, &[0x07]);
    core.reg.a = 0x85;
    core.step();
    assert_eq!(core.reg.a, 0x0B);
    assert_eq!(core.reg.get_c(), true);
    assert_eq!(core.reg.get_z(), false);
}

#[test]
fn test_rra_through_carry() {
    let mut core = boot_with(0x0100, &[0x1F]);
    core.reg.a = 0x02;
    core.reg.set_c(true);
    core.step();
    assert_eq!(core.reg.a, 0x81);
    assert_eq!(core.reg.get_c(), false);
}

#[test]
fn test_cb_bit_res_set() {
    let mut core = boot_with(0x0100, &[0xCB, 0x7F, 0xCB, 0x47, 0xCB, 0x87, 0xCB, 0xC7]);
    core.reg.a = 0x80;
    // BIT 7,A: bit set, Z clear, H forced.
    core.step();
    assert_eq!(core.reg.get_z(), false);
    assert_eq!(core.reg.get_h(), true);
    // BIT 0,A: bit clear, Z set.
    core.step();
    assert_eq!(core.reg.get_z(), true);
    // RES 0,A on 0x80 leaves it; SET 0,A makes 0x81.
    core.step();
    assert_eq!(core.reg.a, 0x80);
    core.step();
    assert_eq!(core.reg.a, 0x81);
}

#[test]
fn test_cb_hl_operand() {
    // CB ops with the (HL) operand read and write memory and cost 16
    // cycles.
    let mut core = boot_with(0x0100, &[0xCB, 0x36]);
    core.reg.set_hl(0xC123);
    core.mem.set_mem(0xC123, 0xAB);
    core.step();
    assert_eq!(core.mem.get_mem(0xC123), 0xBA);
    assert_eq!(core.mem.timer.cycles, 16);
}

#[test]
fn test_inc_dec_hl_memory() {
    let mut core = boot_with(0x0100, &[0x34, 0x35, 0x35]);
    core.reg.set_hl(0xC050);
    core.mem.set_mem(0xC050, 0xFF);
    core.step();
    assert_eq!(core.mem.get_mem(0xC050), 0x00);
    assert_eq!(core.reg.get_z(), true);
    assert_eq!(core.reg.get_h(), true);
    core.step();
    assert_eq!(core.mem.get_mem(0xC050), 0xFF);
    assert_eq!(core.reg.get_n(), true);
    core.step();
    assert_eq!(core.mem.get_mem(0xC050), 0xFE);
}

#[test]
fn test_hl_postincrement_loads() {
    // LD (HL+),A then LD A,(HL-).
    let mut core = boot_with(0x0100, &[0x22, 0x3A]);
    core.reg.a = 0x9C;
    core.reg.set_hl(0xC200);
    core.step();
    assert_eq!(core.mem.get_mem(0xC200), 0x9C);
    assert_eq!(core.reg.get_hl(), 0xC201);
    core.mem.set_mem(0xC201, 0x5D);
    core.step();
    assert_eq!(core.reg.a, 0x5D);
    assert_eq!(core.reg.get_hl(), 0xC200);
}

#[test]
fn test_ld_nn_sp() {
    let mut core = boot_with(0x0100, &[0x08, 0x00, 0xC1]);
    core.reg.sp = 0xBEEF;
    core.step();
    assert_eq!(core.mem.get_mem(0xC100), 0xEF);
    assert_eq!(core.mem.get_mem(0xC101), 0xBE);
    assert_eq!(core.mem.timer.cycles, 20);
}

#[test]
fn test_ldh_reads_ly() {
    // LDH A,(0x44) reads the display's line counter through the I/O page.
    let mut core = boot_with(0x0100, &[0xF0, 0x44]);
    core.reg.a = 0x77;
    core.step();
    assert_eq!(core.reg.a, 0x00);
    assert_eq!(core.mem.timer.cycles, 12);
}

#[test]
fn test_di_ei() {
    let mut core = boot_with(0x0100, &[0xF3, 0xFB]);
    assert!(core.int.enabled);
    core.step();
    assert!(!core.int.enabled);
    core.step();
    assert!(core.int.enabled);
}

#[test]
fn test_reti_enables_interrupts() {
    let mut core = Core::new();
    core.reg.pc = 0xC000;
    core.mem.set_mem(0xC000, 0xD9);
    core.reg.sp = 0xD000;
    core.mem.set_mem(0xD000, 0x00);
    core.mem.set_mem(0xD001, 0x30);
    core.int.toggle(false);
    core.step();
    assert_eq!(core.reg.pc, 0x3000);
    assert!(core.int.enabled);
}

#[test]
fn test_conditional_call_not_taken() {
    let mut core = boot_with(0x0100, &[0xC4, 0x00, 0x20]);
    core.reg.set_z(true);
    core.step();
    assert_eq!(core.reg.pc, 0x0103);
    assert_eq!(core.reg.sp, 0xFFFE);
    assert_eq!(core.mem.timer.cycles, 12);
}

#[test]
fn test_ret_cc_costs() {
    // RET NZ taken costs 20 cycles, not taken 8.
    let mut core = Core::new();
    core.reg.pc = 0xC000;
    core.mem.set_mem(0xC000, 0xC0);
    core.reg.sp = 0xD000;
    core.mem.set_mem(0xD000, 0x00);
    core.mem.set_mem(0xD001, 0x40);
    core.reg.set_z(false);
    core.step();
    assert_eq!(core.reg.pc, 0x4000);
    assert_eq!(core.mem.timer.cycles, 20);

    let mut core2 = Core::new();
    core2.reg.pc = 0xC000;
    core2.mem.set_mem(0xC000, 0xC0);
    core2.reg.set_z(true);
    core2.step();
    assert_eq!(core2.reg.pc, 0xC001);
    assert_eq!(core2.mem.timer.cycles, 8);
}

#[test]
fn test_io_page_register_store() {
    // LD (C),A with C=0x80 stores through 0xFF80 (high RAM).
    let mut core = boot_with(0x0100, &[0xE2]);
    core.reg.c = 0x80;
    core.reg.a = 0x66;
    core.step();
    assert_eq!(core.mem.get_mem(0xFF80), 0x66);
}

#[test]
fn test_direct_memory_transfers() {
    let mut core = boot_with(0x0100, &[0xEA, 0x00, 0xC3, 0xFA, 0x00, 0xC3]);
    core.reg.a = 0x21;
    core.step();
    assert_eq!(core.mem.get_mem(0xC300), 0x21);
    core.reg.a = 0x00;
    core.step();
    assert_eq!(core.reg.a, 0x21);
    assert_eq!(core.mem.timer.cycles, 32);
}
