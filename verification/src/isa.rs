//! Specification-level model of the instruction set: a ghost view of the
//! whole machine and a mathematical interpreter over it.  `Core::step`'s
//! contract states that executing one instruction takes the machine from
//! view `s` to `step_spec(s)`.
//!
//! Each instruction's meaning is a triple: the machine view after its
//! register and memory effects, the number of bytes the program counter
//! advances afterwards (zero for instructions that write PC themselves),
//! and its cycle cost in T-states.

use vstd::prelude::*;

verus! {

use vstd::arithmetic::div_mod::lemma_add_mod_noop;
use vstd::arithmetic::div_mod::lemma_mod_twice;
use vstd::arithmetic::div_mod::lemma_small_mod;
use vstd::arithmetic::div_mod::lemma_fundamental_div_mod_converse_mod;
use crate::registers::Registers;
use crate::registers::RegisterName;
use crate::registers::pair16;
use crate::registers::hi8;
use crate::registers::lo8;
use crate::registers::f_masked;
use crate::registers::flags_value;
use crate::registers::flag_z;
use crate::registers::flag_n;
use crate::registers::flag_h;
use crate::registers::flag_c;
use crate::registers::with_af;
use crate::registers::with_bc;
use crate::registers::with_de;
use crate::registers::with_hl;
use crate::registers::with_flags;
use crate::registers::af_of;
use crate::registers::bc_of;
use crate::registers::de_of;
use crate::registers::hl_of;
use crate::memory::bus_read;
use crate::memory::bus_write;
use crate::display::ly_after;
use crate::display::acc_after;

/// Ghost view of the whole machine: the register file, the ROM image, the
/// RAM backing store, the display's line counter and accumulator, the
/// timer's cycle counter and the interrupt master-enable flag.
#[verifier::ext_equal]
pub ghost struct CoreView {
    pub reg: Registers,
    pub rom: Seq<u8>,
    pub ram: Seq<u8>,
    pub ly: u8,
    pub dacc: nat,
    pub cycles: nat,
    pub ime: bool,
}

/// 16-bit add with wrap-around: `x + d` modulo 2^16.
pub open spec fn wadd16(x: u16, d: int) -> u16 {
    (((x + d) % 0x10000) as u16)
}

/// 8-bit wrap-around for sums and differences in [-256, 511].
pub open spec fn wrap8(x: int) -> u8 {
    if x < 0 {
        ((x + 256) as u8)
    } else if x > 255 {
        ((x - 256) as u8)
    } else {
        (x as u8)
    }
}

/// Wrapped 16-bit adds compose: adding `d1` then `d2` is adding `d1 + d2`.
pub proof fn lemma_wadd16_chain(x: u16, d1: int, d2: int)
    ensures
        wadd16(wadd16(x, d1), d2) == wadd16(x, d1 + d2),
{
    let m = 0x10000int;
    let a = x + d1;
    lemma_add_mod_noop(a % m, d2, m);
    lemma_mod_twice(a, m);
    lemma_add_mod_noop(a, d2, m);
}

/// In a window of one wrap on either side, the 16-bit wrap is a single
/// addition or subtraction of 2^16.
pub proof fn lemma_wadd16_near(x: u16, d: int)
    requires
        -0x10000 <= x + d < 0x20000,
    ensures
        wadd16(x, d) == (if x + d < 0 {
            x + d + 0x10000
        } else if x + d > 0xFFFF {
            x + d - 0x10000
        } else {
            x + d
        }),
{
    let m = 0x10000int;
    let v = x + d;
    if v < 0 {
        lemma_fundamental_div_mod_converse_mod(v, m, -1, v + m);
    } else if v >= m {
        lemma_fundamental_div_mod_converse_mod(v, m, 1, v - m);
    } else {
        lemma_small_mod(v as nat, m as nat);
    }
}

/// Read one byte through the bus in view `s`.
pub open spec fn read8(s: CoreView, loc: u16) -> u8 {
    bus_read(s.rom, s.ram, s.ly, loc)
}

/// Write one byte through the bus in view `s`.
pub open spec fn write8(s: CoreView, loc: u16, v: u8) -> CoreView {
    CoreView { ram: bus_write(s.ram, loc, v), ..s }
}

/// Replace the register file of `s`.
pub open spec fn with_reg(s: CoreView, r: Registers) -> CoreView {
    CoreView { reg: r, ..s }
}

/// Replace the program counter of `s`.
pub open spec fn with_pc(s: CoreView, pc: u16) -> CoreView {
    CoreView { reg: Registers { pc: pc, ..s.reg }, ..s }
}

/// Replace the stack pointer of `s`.
pub open spec fn with_sp(s: CoreView, sp: u16) -> CoreView {
    CoreView { reg: Registers { sp: sp, ..s.reg }, ..s }
}

/// The instruction byte the step will fetch.
pub open spec fn cur_op(s: CoreView) -> u8 {
    read8(s, s.reg.pc)
}

/// The byte after the opcode.
pub open spec fn imm8(s: CoreView) -> u8 {
    read8(s, wadd16(s.reg.pc, 1))
}

/// The 16-bit immediate after the opcode, low byte first.
pub open spec fn imm16(s: CoreView) -> u16 {
    pair16(read8(s, wadd16(s.reg.pc, 2)), imm8(s))
}

/// The register selected by a 3-bit operand field (6, the (HL) slot, is
/// handled by the callers).
pub open spec fn get_r8(r: Registers, i: int) -> u8 {
    if i == 0 {
        r.b
    } else if i == 1 {
        r.c
    } else if i == 2 {
        r.d
    } else if i == 3 {
        r.e
    } else if i == 4 {
        r.h
    } else if i == 5 {
        r.l
    } else {
        r.a
    }
}

/// Write the register selected by a 3-bit operand field.
pub open spec fn set_r8(r: Registers, i: int, v: u8) -> Registers {
    if i == 0 {
        Registers { b: v, ..r }
    } else if i == 1 {
        Registers { c: v, ..r }
    } else if i == 2 {
        Registers { d: v, ..r }
    } else if i == 3 {
        Registers { e: v, ..r }
    } else if i == 4 {
        Registers { h: v, ..r }
    } else if i == 5 {
        Registers { l: v, ..r }
    } else {
        Registers { a: v, ..r }
    }
}

/// Value of one of the four register pairs BC, DE, HL, SP.
pub open spec fn get_rr(r: Registers, i: int) -> u16 {
    if i == 0 {
        bc_of(r)
    } else if i == 1 {
        de_of(r)
    } else if i == 2 {
        hl_of(r)
    } else {
        r.sp
    }
}

/// Write one of the four register pairs BC, DE, HL, SP.
pub open spec fn set_rr(r: Registers, i: int, v: u16) -> Registers {
    if i == 0 {
        with_bc(r, v)
    } else if i == 1 {
        with_de(r, v)
    } else if i == 2 {
        with_hl(r, v)
    } else {
        Registers { sp: v, ..r }
    }
}

/// The carry flag as 0 or 1.
pub open spec fn cin(r: Registers) -> int {
    if flag_c(r.f) {
        1
    } else {
        0
    }
}

/// One of the four condition codes: NZ, Z, NC, C.
pub open spec fn cond_of(r: Registers, i: int) -> bool {
    if i == 0 {
        !flag_z(r.f)
    } else if i == 1 {
        flag_z(r.f)
    } else if i == 2 {
        !flag_c(r.f)
    } else {
        flag_c(r.f)
    }
}

/// ADD/ADC: A plus `v` plus a carry-in, with Z, N=0, H from bit 3, C out of
/// bit 7.
pub open spec fn alu_add(r: Registers, v: u8, carry: int) -> Registers {
    let res = wrap8(r.a + v + carry);
    Registers {
        a: res,
        f: flags_value(
            res == 0,
            false,
            (r.a % 16) + (v % 16) + carry > 15,
            r.a + v + carry > 255,
        ),
        ..r
    }
}

/// SUB/SBC: A minus `v` minus a carry-in, with Z, N=1, H from the borrow of
/// bit 4, C the borrow out.
pub open spec fn alu_sub(r: Registers, v: u8, carry: int) -> Registers {
    let res = wrap8(r.a - v - carry);
    Registers {
        a: res,
        f: flags_value(res == 0, true, (r.a % 16) < (v % 16) + carry, (r.a as int) < v + carry),
        ..r
    }
}

/// CP: the flags of SUB without writing A.
pub open spec fn alu_cp(r: Registers, v: u8) -> Registers {
    let res = wrap8(r.a - v);
    with_flags(r, res == 0, true, (r.a % 16) < (v % 16), r.a < v)
}

/// AND: Z, N=0, H=1, C=0.
pub open spec fn alu_and(r: Registers, v: u8) -> Registers {
    let res = r.a & v;
    Registers { a: res, f: flags_value(res == 0, false, true, false), ..r }
}

/// XOR: Z, N=0, H=0, C=0.
pub open spec fn alu_xor(r: Registers, v: u8) -> Registers {
    let res = r.a ^ v;
    Registers { a: res, f: flags_value(res == 0, false, false, false), ..r }
}

/// OR: Z, N=0, H=0, C=0.
pub open spec fn alu_or(r: Registers, v: u8) -> Registers {
    let res = r.a | v;
    Registers { a: res, f: flags_value(res == 0, false, false, false), ..r }
}

/// The eight ALU operations of opcode rows 0x80-0xBF, selected by `k`:
/// ADD, ADC, SUB, SBC, AND, XOR, OR, CP.
pub open spec fn alu_apply(r: Registers, k: int, v: u8) -> Registers {
    if k == 0 {
        alu_add(r, v, 0)
    } else if k == 1 {
        alu_add(r, v, cin(r))
    } else if k == 2 {
        alu_sub(r, v, 0)
    } else if k == 3 {
        alu_sub(r, v, cin(r))
    } else if k == 4 {
        alu_and(r, v)
    } else if k == 5 {
        alu_xor(r, v)
    } else if k == 6 {
        alu_or(r, v)
    } else {
        alu_cp(r, v)
    }
}

/// 8-bit INC: result and flags (C is preserved).
pub open spec fn inc8_val(v: u8) -> u8 {
    wrap8(v + 1)
}

/// 8-bit DEC: result.
pub open spec fn dec8_val(v: u8) -> u8 {
    wrap8(v - 1)
}

/// Flags after INC of `v`: Z from the result, N=0, H when the low nibble
/// overflows, C untouched.
pub open spec fn inc_flags(r: Registers, v: u8) -> Registers {
    with_flags(r, inc8_val(v) == 0, false, v % 16 == 15, flag_c(r.f))
}

/// Flags after DEC of `v`: Z from the result, N=1, H when the low nibble
/// borrows, C untouched.
pub open spec fn dec_flags(r: Registers, v: u8) -> Registers {
    with_flags(r, dec8_val(v) == 0, true, v % 16 == 0, flag_c(r.f))
}

/// INC of a named 8-bit register.
pub open spec fn inc_reg_spec(r: Registers, rn: RegisterName) -> Registers {
    let v = get_reg(r, rn);
    set_reg(inc_flags(r, v), rn, inc8_val(v))
}

/// DEC of a named 8-bit register.
pub open spec fn dec_reg_spec(r: Registers, rn: RegisterName) -> Registers {
    let v = get_reg(r, rn);
    set_reg(dec_flags(r, v), rn, dec8_val(v))
}

/// Read a register by name.
pub open spec fn get_reg(r: Registers, rn: RegisterName) -> u8 {
    match rn {
        RegisterName::a => r.a,
        RegisterName::f => r.f,
        RegisterName::b => r.b,
        RegisterName::c => r.c,
        RegisterName::d => r.d,
        RegisterName::e => r.e,
        RegisterName::h => r.h,
        RegisterName::l => r.l,
    }
}

/// Write a register by name.
pub open spec fn set_reg(r: Registers, rn: RegisterName, v: u8) -> Registers {
    match rn {
        RegisterName::a => Registers { a: v, ..r },
        RegisterName::f => Registers { f: v, ..r },
        RegisterName::b => Registers { b: v, ..r },
        RegisterName::c => Registers { c: v, ..r },
        RegisterName::d => Registers { d: v, ..r },
        RegisterName::e => Registers { e: v, ..r },
        RegisterName::h => Registers { h: v, ..r },
        RegisterName::l => Registers { l: v, ..r },
    }
}

/// The register name a 3-bit operand field denotes (6 never reaches this).
pub open spec fn rn_of(i: int) -> RegisterName {
    if i == 0 {
        RegisterName::b
    } else if i == 1 {
        RegisterName::c
    } else if i == 2 {
        RegisterName::d
    } else if i == 3 {
        RegisterName::e
    } else if i == 4 {
        RegisterName::h
    } else if i == 5 {
        RegisterName::l
    } else {
        RegisterName::a
    }
}

/// ADD HL,rr: N=0, H from bit 11, C out of bit 15, Z preserved.
pub open spec fn add_hl_spec(r: Registers, v: u16) -> Registers {
    let hl = hl_of(r);
    let res = wadd16(hl, v as int);
    with_flags(
        with_hl(r, res),
        flag_z(r.f),
        false,
        (hl % 0x1000) + (v % 0x1000) > 0xFFF,
        hl + v > 0xFFFF,
    )
}

/// Push a 16-bit value: high byte at SP-1, low byte at SP-2, SP falls by 2.
pub open spec fn push16(s: CoreView, v: u16) -> CoreView {
    let s1 = write8(s, wadd16(s.reg.sp, -1), hi8(v));
    let s2 = write8(s1, wadd16(s.reg.sp, -2), lo8(v));
    with_sp(s2, wadd16(s.reg.sp, -2))
}

/// The 16-bit value a pop reads: low byte at SP, high byte at SP+1.
pub open spec fn pop_val(s: CoreView) -> u16 {
    pair16(read8(s, wadd16(s.reg.sp, 1)), read8(s, s.reg.sp))
}

/// Pop moves SP up by 2; memory is untouched.
pub open spec fn pop16(s: CoreView) -> CoreView {
    with_sp(s, wadd16(s.reg.sp, 2))
}

/// The jump target of a relative jump: PC past the 2-byte instruction plus
/// the sign-extended offset.
pub open spec fn jr_target(pc: u16, e: u8) -> u16 {
    if e < 0x80 {
        wadd16(pc, 2 + e)
    } else {
        wadd16(pc, 2 + e - 256)
    }
}

/// RLC: rotate left, bit 7 into both bit 0 and C.
pub open spec fn rlc_val(v: u8) -> u8 {
    (v << 1) | (v >> 7)
}

/// RRC: rotate right, bit 0 into both bit 7 and C.
pub open spec fn rrc_val(v: u8) -> u8 {
    (v >> 1) | (v << 7)
}

/// RL: rotate left through the carry flag.
pub open spec fn rl_val(v: u8, c: bool) -> u8 {
    (v << 1) | (if c {
        1u8
    } else {
        0u8
    })
}

/// RR: rotate right through the carry flag.
pub open spec fn rr_val(v: u8, c: bool) -> u8 {
    (v >> 1) | (if c {
        0x80u8
    } else {
        0u8
    })
}

/// SLA: shift left, bit 0 becomes 0.
pub open spec fn sla_val(v: u8) -> u8 {
    v << 1
}

/// SRA: shift right, bit 7 preserved.
pub open spec fn sra_val(v: u8) -> u8 {
    (v >> 1) | (v & 0x80)
}

/// SWAP: exchange the nibbles.
pub open spec fn swap_val(v: u8) -> u8 {
    (v >> 4) | (v << 4)
}

/// SRL: shift right, bit 7 becomes 0.
pub open spec fn srl_val(v: u8) -> u8 {
    v >> 1
}

/// Bit 7 of `v` as a boolean.
pub open spec fn bit7(v: u8) -> bool {
    v >> 7 == 1
}

/// Bit 0 of `v` as a boolean.
pub open spec fn bit0(v: u8) -> bool {
    v & 1 == 1
}

/// The single-bit mask selected by a 3-bit field.
pub open spec fn bit_mask(b: int) -> u8 {
    if b == 0 {
        0x01u8
    } else if b == 1 {
        0x02u8
    } else if b == 2 {
        0x04u8
    } else if b == 3 {
        0x08u8
    } else if b == 4 {
        0x10u8
    } else if b == 5 {
        0x20u8
    } else if b == 6 {
        0x40u8
    } else {
        0x80u8
    }
}

/// Result and carry-out of the eight rotate/shift groups of the CB table,
/// selected by `g`: RLC, RRC, RL, RR, SLA, SRA, SWAP, SRL.
pub open spec fn cb_shift(v: u8, g: int, c: bool) -> (u8, bool) {
    if g == 0 {
        (rlc_val(v), bit7(v))
    } else if g == 1 {
        (rrc_val(v), bit0(v))
    } else if g == 2 {
        (rl_val(v, c), bit7(v))
    } else if g == 3 {
        (rr_val(v, c), bit0(v))
    } else if g == 4 {
        (sla_val(v), bit7(v))
    } else if g == 5 {
        (sra_val(v), bit0(v))
    } else if g == 6 {
        (swap_val(v), false)
    } else {
        (srl_val(v), bit0(v))
    }
}

/// The operand an index denotes: a register, or the byte at (HL).
pub open spec fn operand_read(s: CoreView, i: int) -> u8 {
    if i == 6 {
        read8(s, hl_of(s.reg))
    } else {
        get_r8(s.reg, i)
    }
}

/// Write back to the operand an index denotes.
pub open spec fn operand_write(s: CoreView, i: int, v: u8) -> CoreView {
    if i == 6 {
        write8(s, hl_of(s.reg), v)
    } else {
        with_reg(s, set_r8(s.reg, i, v))
    }
}

/// One CB-prefixed instruction with sub-opcode `n`: rotates and shifts,
/// BIT, RES and SET over the operand `n` selects.
pub open spec fn cb_instr(s: CoreView, n: u8) -> (CoreView, u16, nat) {
    let i = n % 8;
    let v = operand_read(s, i as int);
    let cyc: nat = if i == 6 {
        16
    } else {
        8
    };
    if n < 0x40 {
        let g = n / 8;
        let rc = cb_shift(v, g as int, flag_c(s.reg.f));
        let s1 = operand_write(s, i as int, rc.0);
        let s2 = with_reg(s1, with_flags(s1.reg, rc.0 == 0, false, false, rc.1));
        (s2, 2, cyc)
    } else if n < 0x80 {
        let b = n / 8 - 8;
        let z = v & bit_mask(b as int) == 0;
        (
            with_reg(s, with_flags(s.reg, z, false, true, flag_c(s.reg.f))),
            2,
            cyc,
        )
    } else if n < 0xC0 {
        let b = n / 8 - 16;
        (operand_write(s, i as int, v & !bit_mask(b as int)), 2, cyc)
    } else {
        let b = n / 8 - 24;
        (operand_write(s, i as int, v | bit_mask(b as int)), 2, cyc)
    }
}

/// Whether the primary opcode is part of the implemented set.  The gaps of
/// the LR35902 table, STOP, and the SP/HL transfer group the hardware maps
/// to 0xE8/0xF8/0xF9 are outside it.
pub open spec fn op_supported(op: u8) -> bool {
    !(op == 0x10 || op == 0xD3 || op == 0xDB || op == 0xDD || op == 0xE3 || op == 0xE4 || op
        == 0xE8 || op == 0xEB || op == 0xEC || op == 0xED || op == 0xF4 || op == 0xF8 || op == 0xF9
        || op == 0xFC || op == 0xFD)
}

/// LD rr,nn.
pub open spec fn spec_ld_rr_nn(s: CoreView, i: int) -> (CoreView, u16, nat) {
    (with_reg(s, set_rr(s.reg, i, imm16(s))), 3, 12)
}

/// The indirect A loads and stores of rows 0x02-0x3A: (BC), (DE), (HL+)
/// and (HL-) as source or destination.
pub open spec fn spec_indirect(s: CoreView, op: u8) -> (CoreView, u16, nat) {
    let row = op / 16;
    let addr = if row == 0 {
        bc_of(s.reg)
    } else if row == 1 {
        de_of(s.reg)
    } else {
        hl_of(s.reg)
    };
    if op % 16 == 2 {
        let s1 = write8(s, addr, s.reg.a);
        if row == 2 {
            (with_reg(s1, with_hl(s1.reg, wadd16(addr, 1))), 1, 8)
        } else if row == 3 {
            (with_reg(s1, with_hl(s1.reg, wadd16(addr, -1))), 1, 8)
        } else {
            (s1, 1, 8)
        }
    } else {
        let r1 = Registers { a: read8(s, addr), ..s.reg };
        if row == 2 {
            (with_reg(s, with_hl(r1, wadd16(addr, 1))), 1, 8)
        } else if row == 3 {
            (with_reg(s, with_hl(r1, wadd16(addr, -1))), 1, 8)
        } else {
            (with_reg(s, r1), 1, 8)
        }
    }
}

/// LD (nn),SP: the stack pointer stored little-endian at the immediate
/// address.
pub open spec fn spec_ld_nn_sp(s: CoreView) -> (CoreView, u16, nat) {
    let addr = imm16(s);
    let s1 = write8(s, addr, lo8(s.reg.sp));
    let s2 = write8(s1, wadd16(addr, 1), hi8(s.reg.sp));
    (s2, 3, 20)
}

/// JR e / JR cc,e.
pub open spec fn spec_jr(s: CoreView, taken: bool) -> (CoreView, u16, nat) {
    if taken {
        (with_pc(s, jr_target(s.reg.pc, imm8(s))), 0, 12)
    } else {
        (s, 2, 8)
    }
}

/// INC r / INC (HL).
pub open spec fn spec_inc8(s: CoreView, i: int) -> (CoreView, u16, nat) {
    let v = operand_read(s, i);
    let s1 = operand_write(with_reg(s, inc_flags(s.reg, v)), i, inc8_val(v));
    (s1, 1, if i == 6 {
        12nat
    } else {
        4nat
    })
}

/// DEC r / DEC (HL).
pub open spec fn spec_dec8(s: CoreView, i: int) -> (CoreView, u16, nat) {
    let v = operand_read(s, i);
    let s1 = operand_write(with_reg(s, dec_flags(s.reg, v)), i, dec8_val(v));
    (s1, 1, if i == 6 {
        12nat
    } else {
        4nat
    })
}

/// LD r,n / LD (HL),n.
pub open spec fn spec_ld_r_n(s: CoreView, i: int) -> (CoreView, u16, nat) {
    (operand_write(s, i, imm8(s)), 2, if i == 6 {
        12nat
    } else {
        8nat
    })
}

/// The rotate-A, DAA, CPL, SCF and CCF column of rows 0x00-0x3F.
pub open spec fn spec_acc_misc(s: CoreView, op: u8) -> (CoreView, u16, nat) {
    let r = s.reg;
    let rr = if op == 0x07 {
        Registers { a: rlc_val(r.a), f: flags_value(false, false, false, bit7(r.a)), ..r }
    } else if op == 0x0F {
        Registers { a: rrc_val(r.a), f: flags_value(false, false, false, bit0(r.a)), ..r }
    } else if op == 0x17 {
        Registers {
            a: rl_val(r.a, flag_c(r.f)),
            f: flags_value(false, false, false, bit7(r.a)),
            ..r
        }
    } else if op == 0x1F {
        Registers {
            a: rr_val(r.a, flag_c(r.f)),
            f: flags_value(false, false, false, bit0(r.a)),
            ..r
        }
    } else if op == 0x27 {
        daa_spec(r)
    } else if op == 0x2F {
        Registers { a: !r.a, f: flags_value(flag_z(r.f), true, true, flag_c(r.f)), ..r }
    } else if op == 0x37 {
        with_flags(r, flag_z(r.f), false, false, true)
    } else {
        with_flags(r, flag_z(r.f), false, false, !flag_c(r.f))
    };
    (with_reg(s, rr), 1, 4)
}

/// DAA: decimal-adjust A after a BCD addition or subtraction.
pub open spec fn daa_spec(r: Registers) -> Registers {
    let n = flag_n(r.f);
    let h = flag_h(r.f);
    let c = flag_c(r.f);
    if !n {
        let adjusted_high = c || r.a > 0x99;
        let a1 = if adjusted_high {
            wrap8(r.a + 0x60)
        } else {
            r.a
        };
        let a2 = if h || a1 % 16 > 9 {
            wrap8(a1 + 6)
        } else {
            a1
        };
        Registers { a: a2, f: flags_value(a2 == 0, false, false, adjusted_high || c), ..r }
    } else {
        let a1 = if c {
            wrap8(r.a - 0x60)
        } else {
            r.a
        };
        let a2 = if h {
            wrap8(a1 - 6)
        } else {
            a1
        };
        Registers { a: a2, f: flags_value(a2 == 0, true, false, c), ..r }
    }
}

/// LD r,r' over the 0x40-0x7F matrix, (HL) as source or destination.
pub open spec fn spec_ld_r_r(s: CoreView, op: u8) -> (CoreView, u16, nat) {
    let dst = (op - 0x40) / 8;
    let src = op % 8;
    if src == 6 {
        (
            with_reg(s, set_r8(s.reg, dst as int, read8(s, hl_of(s.reg)))),
            1,
            8,
        )
    } else if dst == 6 {
        (write8(s, hl_of(s.reg), get_r8(s.reg, src as int)), 1, 8)
    } else {
        (with_reg(s, set_r8(s.reg, dst as int, get_r8(s.reg, src as int))), 1, 4)
    }
}

/// The ALU rows 0x80-0xBF: operation by bits 3-5, operand by bits 0-2.
pub open spec fn spec_alu_r(s: CoreView, op: u8) -> (CoreView, u16, nat) {
    let k = (op - 0x80) / 8;
    let i = op % 8;
    let v = operand_read(s, i as int);
    (with_reg(s, alu_apply(s.reg, k as int, v)), 1, if i == 6 {
        8nat
    } else {
        4nat
    })
}

/// The immediate-operand ALU column 0xC6-0xFE.
pub open spec fn spec_alu_n(s: CoreView, op: u8) -> (CoreView, u16, nat) {
    let k = (op - 0xC0) / 8;
    (with_reg(s, alu_apply(s.reg, k as int, imm8(s))), 2, 8)
}

/// JP nn / JP cc,nn.
pub open spec fn spec_jp(s: CoreView, taken: bool) -> (CoreView, u16, nat) {
    if taken {
        (with_pc(s, imm16(s)), 0, 16)
    } else {
        (s, 3, 12)
    }
}

/// CALL nn / CALL cc,nn: the address after the 3-byte instruction is
/// pushed, then PC jumps to the immediate.
pub open spec fn spec_call(s: CoreView, taken: bool) -> (CoreView, u16, nat) {
    if taken {
        (with_pc(push16(s, wadd16(s.reg.pc, 3)), imm16(s)), 0, 24)
    } else {
        (s, 3, 12)
    }
}

/// RET / RET cc / RETI.
pub open spec fn spec_ret(s: CoreView, taken: bool, cycles_taken: nat) -> (CoreView, u16, nat) {
    if taken {
        (with_pc(pop16(s), pop_val(s)), 0, cycles_taken)
    } else {
        (s, 1, 8)
    }
}

/// RST: push the address of the next instruction, jump to a page-zero
/// vector.
pub open spec fn spec_rst(s: CoreView, target: u16) -> (CoreView, u16, nat) {
    (with_pc(push16(s, wadd16(s.reg.pc, 1)), target), 0, 16)
}

/// POP rr, with AF masking the low nibble of F.
pub open spec fn spec_pop(s: CoreView, op: u8) -> (CoreView, u16, nat) {
    let v = pop_val(s);
    let s1 = pop16(s);
    let rr = if op == 0xC1 {
        with_bc(s1.reg, v)
    } else if op == 0xD1 {
        with_de(s1.reg, v)
    } else if op == 0xE1 {
        with_hl(s1.reg, v)
    } else {
        with_af(s1.reg, v)
    };
    (with_reg(s1, rr), 1, 12)
}

/// PUSH rr.
pub open spec fn spec_push(s: CoreView, op: u8) -> (CoreView, u16, nat) {
    let v = if op == 0xC5 {
        bc_of(s.reg)
    } else if op == 0xD5 {
        de_of(s.reg)
    } else if op == 0xE5 {
        hl_of(s.reg)
    } else {
        af_of(s.reg)
    };
    (push16(s, v), 1, 16)
}

/// One primary-table instruction: the machine view after its effects, the
/// program-counter advance, and the cycle cost.  Unsupported opcodes map to
/// a zero-effect triple; `Core::step` excludes them by precondition.
#[verifier::opaque]
pub open spec fn instr_spec(s: CoreView, op: u8) -> (CoreView, u16, nat) {
    if !op_supported(op) {
        (s, 0, 0)
    } else if op == 0x00 || op == 0x76 {
        (s, 1, 4)
    } else if op == 0xCB {
        cb_instr(s, imm8(s))
    } else if 0x40 <= op && op < 0x80 {
        spec_ld_r_r(s, op)
    } else if 0x80 <= op && op < 0xC0 {
        spec_alu_r(s, op)
    } else if op < 0x40 {
        if op % 8 == 0 {
            if op == 0x08 {
                spec_ld_nn_sp(s)
            } else if op == 0x18 {
                spec_jr(s, true)
            } else {
                spec_jr(s, cond_of(s.reg, (op - 0x20) / 8 as int))
            }
        } else if op % 8 == 1 {
            if op % 16 == 1 {
                spec_ld_rr_nn(s, op as int / 16)
            } else {
                (with_reg(s, add_hl_spec(s.reg, get_rr(s.reg, op as int / 16))), 1, 8)
            }
        } else if op % 8 == 2 {
            spec_indirect(s, op)
        } else if op % 8 == 3 {
            if op % 16 == 3 {
                (
                    with_reg(s, set_rr(s.reg, op as int / 16, wadd16(get_rr(s.reg, op as int / 16), 1))),
                    1,
                    8,
                )
            } else {
                (
                    with_reg(
                        s,
                        set_rr(s.reg, op as int / 16, wadd16(get_rr(s.reg, op as int / 16), -1)),
                    ),
                    1,
                    8,
                )
            }
        } else if op % 8 == 4 {
            spec_inc8(s, op as int / 8)
        } else if op % 8 == 5 {
            spec_dec8(s, op as int / 8)
        } else if op % 8 == 6 {
            spec_ld_r_n(s, op as int / 8)
        } else {
            spec_acc_misc(s, op)
        }
    } else if op == 0xC0 || op == 0xC8 || op == 0xD0 || op == 0xD8 {
        spec_ret(s, cond_of(s.reg, (op - 0xC0) / 8 as int), 20)
    } else if op == 0xC9 {
        spec_ret(s, true, 16)
    } else if op == 0xD9 {
        let t = spec_ret(s, true, 16);
        (CoreView { ime: true, ..t.0 }, t.1, t.2)
    } else if op == 0xC1 || op == 0xD1 || op == 0xE1 || op == 0xF1 {
        spec_pop(s, op)
    } else if op == 0xC5 || op == 0xD5 || op == 0xE5 || op == 0xF5 {
        spec_push(s, op)
    } else if op == 0xC2 || op == 0xCA || op == 0xD2 || op == 0xDA {
        spec_jp(s, cond_of(s.reg, (op - 0xC2) / 8 as int))
    } else if op == 0xC3 {
        spec_jp(s, true)
    } else if op == 0xE9 {
        (with_pc(s, hl_of(s.reg)), 0, 4)
    } else if op == 0xC4 || op == 0xCC || op == 0xD4 || op == 0xDC {
        spec_call(s, cond_of(s.reg, (op - 0xC4) / 8 as int))
    } else if op == 0xCD {
        spec_call(s, true)
    } else if op % 8 == 6 {
        spec_alu_n(s, op)
    } else if op % 8 == 7 {
        spec_rst(s, (op - 0xC7) as u16)
    } else if op == 0xE0 {
        (write8(s, wadd16(0xFF00, imm8(s) as int), s.reg.a), 2, 12)
    } else if op == 0xF0 {
        (
            with_reg(s, Registers { a: read8(s, wadd16(0xFF00, imm8(s) as int)), ..s.reg }),
            2,
            12,
        )
    } else if op == 0xE2 {
        (write8(s, wadd16(0xFF00, s.reg.c as int), s.reg.a), 1, 8)
    } else if op == 0xF2 {
        (
            with_reg(s, Registers { a: read8(s, wadd16(0xFF00, s.reg.c as int)), ..s.reg }),
            1,
            8,
        )
    } else if op == 0xEA {
        (write8(s, imm16(s), s.reg.a), 3, 16)
    } else if op == 0xFA {
        (with_reg(s, Registers { a: read8(s, imm16(s)), ..s.reg }), 3, 16)
    } else if op == 0xF3 {
        (CoreView { ime: false, ..s }, 1, 4)
    } else {
        // 0xFB: EI
        (CoreView { ime: true, ..s }, 1, 4)
    }
}

/// Advance the display and the timer by one instruction's cycle cost.
pub open spec fn tick(s: CoreView, c: nat) -> CoreView {
    CoreView {
        ly: ly_after(s.ly, s.dacc, c),
        dacc: acc_after(s.dacc, c) as nat,
        cycles: s.cycles + c,
        ..s
    }
}

/// One full step: fetch the opcode at PC, execute it, advance PC by the
/// reported length, then tick the peripherals by the cycle cost.
pub open spec fn step_spec(s: CoreView) -> CoreView {
    let t = instr_spec(s, cur_op(s));
    let s1 = with_pc(t.0, wadd16(t.0.reg.pc, t.1 as int));
    tick(s1, t.2)
}

/// The cycle cost of the instruction a step would execute in view `s`.
pub open spec fn step_cycles(s: CoreView) -> nat {
    instr_spec(s, cur_op(s)).2
}

/// The machine view after `n` steps.
pub open spec fn run_steps(s: CoreView, n: nat) -> CoreView
    decreases n,
{
    if n == 0 {
        s
    } else {
        step_spec(run_steps(s, (n - 1) as nat))
    }
}

/// The sum of the cycle costs of the first `n` steps from `s`.
pub open spec fn total_cycles(s: CoreView, n: nat) -> nat
    decreases n,
{
    if n == 0 {
        0
    } else {
        total_cycles(s, (n - 1) as nat) + step_cycles(run_steps(s, (n - 1) as nat))
    }
}

/// An instruction's register and memory effects never touch the display
/// state or the timer: only the post-dispatch tick moves them.
pub proof fn lemma_instr_clock(s: CoreView, op: u8)
    ensures
        instr_spec(s, op).0.cycles == s.cycles,
        instr_spec(s, op).0.ly == s.ly,
        instr_spec(s, op).0.dacc == s.dacc,
{
    reveal(instr_spec);
}

/// One step adds exactly its instruction's cycle cost to the timer and
/// advances the display by the same amount.
pub proof fn lemma_step_clock(s: CoreView)
    ensures
        step_spec(s).cycles == s.cycles + step_cycles(s),
        step_spec(s).ly == ly_after(s.ly, s.dacc, step_cycles(s)),
        step_spec(s).dacc == acc_after(s.dacc, step_cycles(s)),
{
    lemma_instr_clock(s, cur_op(s));
}

/// After `n` steps the timer's counter equals its start plus the sum of the
/// cycle costs those `n` instructions reported.
pub proof fn lemma_timer_sums_cycles(s: CoreView, n: nat)
    ensures
        run_steps(s, n).cycles == s.cycles + total_cycles(s, n),
    decreases n,
{
    if n > 0 {
        lemma_timer_sums_cycles(s, (n - 1) as nat);
        lemma_step_clock(run_steps(s, (n - 1) as nat));
    }
}

/// Pulling a modulus out of the left summand of a sum under the same
/// modulus changes nothing.
pub proof fn lemma_mod_add_left(a: int, b: int, m: int)
    requires
        m > 0,
    ensures
        ((a % m) + b) % m == (a + b) % m,
{
    lemma_add_mod_noop(a % m, b, m);
    lemma_mod_twice(a, m);
    lemma_add_mod_noop(a, b, m);
}

/// A display state that stands at `t` total cycles (LY = (t/456) mod 154,
/// accumulator = t mod 456) moves to standing at `t + c` when ticked by `c`.
pub proof fn lemma_disp_advance(ly: u8, dacc: nat, t: nat, c: nat)
    requires
        ly == (t / 456) % 154,
        dacc == t % 456,
    ensures
        ly_after(ly, dacc, c) == ((t + c) / 456) % 154,
        acc_after(dacc, c) == (t + c) % 456,
{
    let q = t as int / 456;
    let r = t as int % 456;
    vstd::arithmetic::div_mod::lemma_fundamental_div_mod(t as int, 456);
    let k = (r + c) / 456;
    let m = (r + c) % 456;
    vstd::arithmetic::div_mod::lemma_fundamental_div_mod(r + c, 456);
    assert(t + c == 456 * (q + k) + m);
    vstd::arithmetic::div_mod::lemma_fundamental_div_mod_converse_div(t + c as int, 456, q + k, m);
    lemma_fundamental_div_mod_converse_mod(t + c as int, 456, q + k, m);
    lemma_mod_add_left(q, k, 154);
}

/// After `n` steps whose cycle costs sum to C, a display that started in
/// sync at `t` total cycles shows LY = ((t + C)/456) mod 154 and holds
/// (t + C) mod 456 in its accumulator.
#[verifier::rlimit(100)]
pub proof fn lemma_display_tracks_cycles(s: CoreView, t: nat, n: nat)
    requires
        s.ly == (t / 456) % 154,
        s.dacc == t % 456,
    ensures
        run_steps(s, n).ly == ((t + total_cycles(s, n)) / 456) % 154,
        run_steps(s, n).dacc == (t + total_cycles(s, n)) % 456,
    decreases n,
{
    if n > 0 {
        let prev = run_steps(s, (n - 1) as nat);
        lemma_display_tracks_cycles(s, t, (n - 1) as nat);
        lemma_step_clock(prev);
        lemma_disp_advance(prev.ly, prev.dacc, t + total_cycles(s, (n - 1) as nat), step_cycles(prev));
    }
}

/// From power-on (LY = 0, empty accumulator), after `n` steps with total
/// cycle count C the display shows LY = (C/456) mod 154.
pub proof fn lemma_ly_from_total(s: CoreView, n: nat)
    requires
        s.ly == 0,
        s.dacc == 0,
    ensures
        run_steps(s, n).ly == (total_cycles(s, n) / 456) % 154,
{
    lemma_display_tracks_cycles(s, 0, n);
}

/// Popping a 16-bit value and pushing it back restores the stack pointer
/// and the whole memory image, wherever the stack lives.
pub proof fn lemma_pop_then_push(s: CoreView)
    requires
        s.ram.len() == crate::memory::ram_len(),
    ensures
        push16(pop16(s), pop_val(s)) == s,
{
    let sp = s.reg.sp;
    let a_hi = wadd16(sp, 1);
    let v = pop_val(s);
    crate::registers::lemma_pair16_bytes(read8(s, a_hi), read8(s, sp));
    lemma_wadd16_chain(sp, 2, -1);
    lemma_wadd16_chain(sp, 2, -2);
    lemma_small_mod(sp as nat, 0x10000);
    assert(wadd16(sp, 0) == sp);
    lemma_write_back(s.rom, s.ram, s.ly, a_hi);
    lemma_write_back(s.rom, s.ram, s.ly, sp);
    assert(push16(pop16(s), v).ram =~= s.ram);
    assert(push16(pop16(s), v) =~= s);
}

/// Popping into AF and pushing AF back restores the stack pointer; the
/// memory image is restored except that the byte that held F reads back
/// with its low nibble cleared.
pub proof fn lemma_pop_then_push_af(s: CoreView)
    requires
        s.ram.len() == crate::memory::ram_len(),
    ensures
        push16(pop16(s), pair16(hi8(pop_val(s)), f_masked(pop_val(s)))).reg.sp == s.reg.sp,
        push16(pop16(s), pair16(hi8(pop_val(s)), f_masked(pop_val(s)))).ram == bus_write(
            s.ram,
            s.reg.sp,
            f_masked(pop_val(s)),
        ),
{
    let sp = s.reg.sp;
    let a_hi = wadd16(sp, 1);
    let v = pop_val(s);
    crate::registers::lemma_pair16_bytes(read8(s, a_hi), read8(s, sp));
    crate::registers::lemma_pair16_bytes(hi8(v), f_masked(v));
    lemma_wadd16_chain(sp, 2, -1);
    lemma_wadd16_chain(sp, 2, -2);
    lemma_small_mod(sp as nat, 0x10000);
    assert(wadd16(sp, 0) == sp);
    lemma_write_back(s.rom, s.ram, s.ly, a_hi);
    assert(push16(pop16(s), pair16(hi8(v), f_masked(v))).ram =~= bus_write(
        s.ram,
        sp,
        f_masked(v),
    ));
}

/// Writing back to an address the very byte a bus read returns from it
/// leaves the RAM image unchanged.
proof fn lemma_write_back(rom: Seq<u8>, ram: Seq<u8>, ly: u8, a: u16)
    requires
        ram.len() == crate::memory::ram_len(),
    ensures
        bus_write(ram, a, bus_read(rom, ram, ly, a)) == ram,
{
    match crate::memory::ram_slot(a) {
        Some(i) => {
            assert(bus_write(ram, a, bus_read(rom, ram, ly, a)) =~= ram);
        },
        None => {
        },
    }
}

} // verus!
