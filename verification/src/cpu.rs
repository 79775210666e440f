//! The CPU core: decodes and executes one instruction per step, mutating
//! the register file and the memory bus and advancing the peripherals by
//! the instruction's cycle cost.  Every public operation is specified
//! against the interpreter in `isa`.

use vstd::prelude::*;

verus! {

use crate::registers::Registers;
use crate::registers::RegisterName;
use crate::registers::pair16;
use crate::memory::Memory;
use crate::memory::ram_len;
use crate::rom::rom_len;
use crate::interrupts::Interrupts;
use crate::isa::CoreView;
use crate::isa::wadd16;
use crate::isa::read8;
use crate::isa::write8;
use crate::isa::with_reg;
use crate::isa::with_pc;
use crate::isa::cur_op;
use crate::isa::imm8;
use crate::isa::get_r8;
use crate::isa::set_r8;
use crate::isa::get_rr;
use crate::isa::set_rr;
use crate::isa::cond_of;
use crate::isa::alu_add;
use crate::isa::alu_sub;
use crate::isa::alu_cp;
use crate::isa::alu_and;
use crate::isa::alu_xor;
use crate::isa::alu_or;
use crate::isa::alu_apply;
use crate::isa::cin;
use crate::isa::inc_reg_spec;
use crate::isa::dec_reg_spec;
use crate::isa::get_reg;
use crate::isa::set_reg;
use crate::isa::add_hl_spec;
use crate::isa::push16;
use crate::isa::pop_val;
use crate::isa::pop16;
use crate::isa::bit_mask;
use crate::isa::operand_read;
use crate::isa::operand_write;
use crate::isa::cb_instr;
use crate::isa::op_supported;
use crate::isa::instr_spec;
use crate::isa::step_spec;
use crate::isa::step_cycles;
use crate::isa::spec_ld_rr_nn;
use crate::isa::spec_indirect;
use crate::isa::spec_ld_nn_sp;
use crate::isa::spec_jr;
use crate::isa::spec_inc8;
use crate::isa::spec_dec8;
use crate::isa::spec_ld_r_n;
use crate::isa::spec_acc_misc;
use crate::isa::daa_spec;
use crate::isa::spec_ld_r_r;
use crate::isa::spec_alu_r;
use crate::isa::spec_alu_n;
use crate::isa::spec_jp;
use crate::isa::spec_call;
use crate::isa::spec_ret;
use crate::isa::spec_rst;
use crate::isa::spec_pop;
use crate::isa::spec_push;
use crate::isa::lemma_wadd16_chain;
use crate::isa::lemma_wadd16_near;

/// The emulator core: register file, memory bus, interrupt state.
pub struct Core {
    pub reg: Registers,
    pub mem: Memory,
    pub int: Interrupts,
}

impl View for Core {
    type V = CoreView;

    open spec fn view(&self) -> CoreView {
        CoreView {
            reg: self.reg,
            rom: self.mem.rom.data@,
            ram: self.mem.ram@,
            ly: self.mem.disp.ly_coord,
            dacc: self.mem.disp.steps as nat,
            cycles: self.mem.timer.cycles as nat,
            ime: self.int.enabled,
        }
    }
}

/// Whether the low nibbles of an 8-bit addition carry into bit 4.
pub fn check_add_half_carry(a: u8, b: u8) -> (r: bool)
    ensures
        r == ((a % 16) + (b % 16) > 15),
{
    a % 16 + b % 16 > 15
}

/// Whether the low nibbles of an 8-bit subtraction borrow from bit 4.
pub fn check_sub_half_carry(a: u8, b: u8) -> (r: bool)
    ensures
        r == ((a % 16) < (b % 16)),
{
    a % 16 < b % 16
}

/// Whether the low 12 bits of a 16-bit addition carry into bit 12.
pub fn check_add_half_carry_16(a: u16, b: u16) -> (r: bool)
    ensures
        r == ((a % 0x1000) + (b % 0x1000) > 0xFFF),
{
    a % 0x1000 + b % 0x1000 > 0xFFF
}

/// Whether the low 12 bits of a 16-bit subtraction borrow from bit 12.
pub fn check_sub_half_carry_16(a: u16, b: u16) -> (r: bool)
    ensures
        r == ((a % 0x1000) < (b % 0x1000)),
{
    a % 0x1000 < b % 0x1000
}

/// 16-bit wrapping addition, specified through `wadd16`.
fn wadd(x: u16, y: u16) -> (r: u16)
    ensures
        r == wadd16(x, y as int),
{
    proof {
        lemma_wadd16_near(x, y as int);
    }
    x.wrapping_add(y)
}

/// 16-bit wrapping subtraction, specified through `wadd16`.
fn wsub(x: u16, y: u16) -> (r: u16)
    ensures
        r == wadd16(x, -(y as int)),
{
    proof {
        lemma_wadd16_near(x, -(y as int));
    }
    x.wrapping_sub(y)
}

impl Core {
    /// The bus behind the core is well formed.
    pub open spec fn wf(&self) -> bool {
        self.mem.wf()
    }

    /// A machine at power-on: default registers, blank ROM, zeroed RAM,
    /// peripherals at zero, interrupts enabled.
    pub fn new() -> (r: Core)
        ensures
            r.wf(),
            r.reg == (Registers {
                a: 0x01,
                f: 0xB0,
                b: 0x00,
                c: 0x13,
                d: 0x00,
                e: 0xD8,
                h: 0x01,
                l: 0x4D,
                sp: 0xFFFE,
                pc: 0x0100,
            }),
            r@.ime,
            r@.ly == 0,
            r@.dacc == 0,
            r@.cycles == 0,
            forall|i: int| 0 <= i < rom_len() ==> r@.rom[i] == 0,
            forall|i: int| 0 <= i < ram_len() ==> r@.ram[i] == 0,
    {
        Core {
            reg: Registers::load_defaults(),
            mem: Memory::create_memory(),
            int: Interrupts::create(),
        }
    }

    /// Read the byte `offset` past the program counter, wrapping.
    pub fn get_8_pc(&self, offset: u16) -> (r: u8)
        requires
            self.wf(),
        ensures
            r == read8(self@, wadd16(self@.reg.pc, offset as int)),
    {
        self.mem.get_mem(wadd(self.reg.pc, offset))
    }

    /// Read the 16-bit little-endian value `offset` past the program
    /// counter.
    pub fn get_16_pc(&self, offset: u16) -> (r: u16)
        requires
            self.wf(),
            offset < 0xFFFF,
        ensures
            r == pair16(
                read8(self@, wadd16(self@.reg.pc, offset + 1)),
                read8(self@, wadd16(self@.reg.pc, offset as int)),
            ),
    {
        let lo = self.get_8_pc(offset);
        let hi = self.get_8_pc(offset + 1);
        (hi as u16) * 256 + (lo as u16)
    }

    /// Push a 16-bit value: high byte at SP-1, low byte at SP-2.
    pub fn push(&mut self, value: u16)
        requires
            old(self).wf(),
        ensures
            final(self).wf(),
            final(self)@ == push16(old(self)@, value),
    {
        let sp1 = wsub(self.reg.sp, 1);
        self.mem.set_mem(sp1, (value / 256) as u8);
        let sp2 = wsub(self.reg.sp, 2);
        self.mem.set_mem(sp2, (value % 256) as u8);
        self.reg.sp = sp2;
        proof {
            assert(self@ =~= push16(old(self)@, value));
        }
    }

    /// Pop a 16-bit value: low byte at SP, high byte at SP+1.
    pub fn pop(&mut self) -> (r: u16)
        requires
            old(self).wf(),
        ensures
            final(self).wf(),
            r == pop_val(old(self)@),
            final(self)@ == pop16(old(self)@),
    {
        let lo = self.mem.get_mem(self.reg.sp);
        let hi = self.mem.get_mem(wadd(self.reg.sp, 1));
        self.reg.sp = wadd(self.reg.sp, 2);
        proof {
            assert(self@ =~= pop16(old(self)@));
        }
        (hi as u16) * 256 + (lo as u16)
    }

    /// Read the 8-bit register a 3-bit operand field selects (never 6).
    fn reg_get8(&self, i: u8) -> (r: u8)
        requires
            i < 8,
            i != 6,
        ensures
            r == get_r8(self.reg, i as int),
    {
        if i == 0 {
            self.reg.b
        } else if i == 1 {
            self.reg.c
        } else if i == 2 {
            self.reg.d
        } else if i == 3 {
            self.reg.e
        } else if i == 4 {
            self.reg.h
        } else if i == 5 {
            self.reg.l
        } else {
            self.reg.a
        }
    }

    /// Write the 8-bit register a 3-bit operand field selects (never 6).
    fn reg_set8(&mut self, i: u8, v: u8)
        requires
            i < 8,
            i != 6,
        ensures
            final(self).reg == set_r8(old(self).reg, i as int, v),
            final(self).mem == old(self).mem,
            final(self).int == old(self).int,
    {
        if i == 0 {
            self.reg.b = v;
        } else if i == 1 {
            self.reg.c = v;
        } else if i == 2 {
            self.reg.d = v;
        } else if i == 3 {
            self.reg.e = v;
        } else if i == 4 {
            self.reg.h = v;
        } else if i == 5 {
            self.reg.l = v;
        } else {
            self.reg.a = v;
        }
    }

    /// Read the operand a CB or ALU index selects: a register, or the byte
    /// at (HL) for index 6.
    fn operand_get(&self, i: u8) -> (r: u8)
        requires
            self.wf(),
            i < 8,
        ensures
            r == operand_read(self@, i as int),
    {
        if i == 6 {
            let addr = self.reg.get_hl();
            self.mem.get_mem(addr)
        } else {
            self.reg_get8(i)
        }
    }

    /// Write back to the operand an index selects: a register, or the byte
    /// at (HL) for index 6.
    fn operand_set(&mut self, i: u8, v: u8)
        requires
            old(self).wf(),
            i < 8,
        ensures
            final(self).wf(),
            final(self)@ == operand_write(old(self)@, i as int, v),
    {
        if i == 6 {
            let addr = self.reg.get_hl();
            self.mem.set_mem(addr, v);
            proof {
                assert(self@ =~= operand_write(old(self)@, i as int, v));
            }
        } else {
            self.reg_set8(i, v);
            proof {
                assert(self@ =~= operand_write(old(self)@, i as int, v));
            }
        }
    }

    /// Read a register by name.
    fn name_get(&self, rn: RegisterName) -> (r: u8)
        ensures
            r == get_reg(self.reg, rn),
    {
        match rn {
            RegisterName::a => self.reg.a,
            RegisterName::f => self.reg.f,
            RegisterName::b => self.reg.b,
            RegisterName::c => self.reg.c,
            RegisterName::d => self.reg.d,
            RegisterName::e => self.reg.e,
            RegisterName::h => self.reg.h,
            RegisterName::l => self.reg.l,
        }
    }

    /// Write a register by name.
    fn name_set(&mut self, rn: RegisterName, v: u8)
        ensures
            final(self).reg == set_reg(old(self).reg, rn, v),
            final(self).mem == old(self).mem,
            final(self).int == old(self).int,
    {
        match rn {
            RegisterName::a => self.reg.a = v,
            RegisterName::f => self.reg.f = v,
            RegisterName::b => self.reg.b = v,
            RegisterName::c => self.reg.c = v,
            RegisterName::d => self.reg.d = v,
            RegisterName::e => self.reg.e = v,
            RegisterName::h => self.reg.h = v,
            RegisterName::l => self.reg.l = v,
        }
    }

    /// ADD A,v.
    pub fn add_a(&mut self, val: u8)
        requires
            old(self).wf(),
        ensures
            final(self).wf(),
            final(self)@ == with_reg(old(self)@, alu_add(old(self)@.reg, val, 0)),
    {
        let a = self.reg.a;
        let h = check_add_half_carry(a, val);
        let sum = a as u16 + val as u16;
        let res = if sum > 255 {
            (sum - 256) as u8
        } else {
            sum as u8
        };
        self.reg.a = res;
        self.reg.set_flags(res == 0, false, h, sum > 255);
        proof {
            assert(self@ =~= with_reg(old(self)@, alu_add(old(self)@.reg, val, 0)));
        }
    }

    /// ADC A,v: add with the current carry flag.
    pub fn adc_a(&mut self, val: u8)
        requires
            old(self).wf(),
        ensures
            final(self).wf(),
            final(self)@ == with_reg(
                old(self)@,
                alu_add(old(self)@.reg, val, cin(old(self)@.reg)),
            ),
    {
        let carry: u8 = if self.reg.get_c() {
            1
        } else {
            0
        };
        let a = self.reg.a;
        let h = a % 16 + val % 16 + carry > 15;
        let sum = a as u16 + val as u16 + carry as u16;
        let res = if sum > 255 {
            (sum - 256) as u8
        } else {
            sum as u8
        };
        self.reg.a = res;
        self.reg.set_flags(res == 0, false, h, sum > 255);
        proof {
            assert(self@ =~= with_reg(old(self)@, alu_add(old(self)@.reg, val, cin(old(self)@.reg))));
        }
    }

    /// SUB A,v.
    pub fn sub_a(&mut self, val: u8)
        requires
            old(self).wf(),
        ensures
            final(self).wf(),
            final(self)@ == with_reg(old(self)@, alu_sub(old(self)@.reg, val, 0)),
    {
        let a = self.reg.a;
        let h = check_sub_half_carry(a, val);
        let c = a < val;
        let res = if a >= val {
            a - val
        } else {
            (a as u16 + 256 - val as u16) as u8
        };
        self.reg.a = res;
        self.reg.set_flags(res == 0, true, h, c);
        proof {
            assert(self@ =~= with_reg(old(self)@, alu_sub(old(self)@.reg, val, 0)));
        }
    }

    /// SBC A,v: subtract with the current carry flag.
    pub fn subc_a(&mut self, val: u8)
        requires
            old(self).wf(),
        ensures
            final(self).wf(),
            final(self)@ == with_reg(
                old(self)@,
                alu_sub(old(self)@.reg, val, cin(old(self)@.reg)),
            ),
    {
        let carry: u8 = if self.reg.get_c() {
            1
        } else {
            0
        };
        let a = self.reg.a;
        let h = a % 16 < val % 16 + carry;
        let c = (a as u16) < val as u16 + carry as u16;
        let t = a as u16 + 256 - val as u16 - carry as u16;
        let res = if t >= 256 {
            (t - 256) as u8
        } else {
            t as u8
        };
        self.reg.a = res;
        self.reg.set_flags(res == 0, true, h, c);
        proof {
            assert(self@ =~= with_reg(old(self)@, alu_sub(old(self)@.reg, val, cin(old(self)@.reg))));
        }
    }

    /// CP A,v: the flags of a subtraction, A untouched.
    pub fn cp_a(&mut self, val: u8)
        requires
            old(self).wf(),
        ensures
            final(self).wf(),
            final(self)@ == with_reg(old(self)@, alu_cp(old(self)@.reg, val)),
    {
        let a = self.reg.a;
        let h = check_sub_half_carry(a, val);
        self.reg.set_flags(a == val, true, h, a < val);
        proof {
            assert(self@ =~= with_reg(old(self)@, alu_cp(old(self)@.reg, val)));
        }
    }

    /// AND A,v.
    pub fn and_a(&mut self, operand: u8) -> (r: (u16, u64))
        requires
            old(self).wf(),
        ensures
            final(self).wf(),
            final(self)@ == with_reg(old(self)@, alu_and(old(self)@.reg, operand)),
            r == (1u16, 4u64),
    {
        self.reg.a = self.reg.a & operand;
        let z = self.reg.a == 0;
        self.reg.set_flags(z, false, true, false);
        proof {
            assert(self@ =~= with_reg(old(self)@, alu_and(old(self)@.reg, operand)));
        }
        (1, 4)
    }

    /// XOR A,v.
    pub fn xor_a(&mut self, operand: u8) -> (r: (u16, u64))
        requires
            old(self).wf(),
        ensures
            final(self).wf(),
            final(self)@ == with_reg(old(self)@, alu_xor(old(self)@.reg, operand)),
            r == (1u16, 4u64),
    {
        self.reg.a = self.reg.a ^ operand;
        let z = self.reg.a == 0;
        self.reg.set_flags(z, false, false, false);
        proof {
            assert(self@ =~= with_reg(old(self)@, alu_xor(old(self)@.reg, operand)));
        }
        (1, 4)
    }

    /// OR A,v.
    pub fn or_a(&mut self, operand: u8) -> (r: (u16, u64))
        requires
            old(self).wf(),
        ensures
            final(self).wf(),
            final(self)@ == with_reg(old(self)@, alu_or(old(self)@.reg, operand)),
            r == (1u16, 4u64),
    {
        self.reg.a = self.reg.a | operand;
        let z = self.reg.a == 0;
        self.reg.set_flags(z, false, false, false);
        proof {
            assert(self@ =~= with_reg(old(self)@, alu_or(old(self)@.reg, operand)));
        }
        (1, 4)
    }

    /// INC of a named 8-bit register: Z and H from the result, N cleared,
    /// C untouched.
    pub fn inc_reg(&mut self, reg_name: RegisterName) -> (r: (u16, u64))
        requires
            old(self).wf(),
            reg_name != RegisterName::f,
        ensures
            final(self).wf(),
            final(self)@ == with_reg(old(self)@, inc_reg_spec(old(self)@.reg, reg_name)),
            r == (1u16, 4u64),
    {
        let v = self.name_get(reg_name);
        let res = if v == 255 {
            0
        } else {
            v + 1
        };
        let c = self.reg.get_c();
        self.reg.set_flags(res == 0, false, v % 16 == 15, c);
        self.name_set(reg_name, res);
        proof {
            assert(self@ =~= with_reg(old(self)@, inc_reg_spec(old(self)@.reg, reg_name)));
        }
        (1, 4)
    }

    /// DEC of a named 8-bit register: Z and H from the result, N set,
    /// C untouched.
    pub fn dec_reg(&mut self, reg_name: RegisterName) -> (r: (u16, u64))
        requires
            old(self).wf(),
            reg_name != RegisterName::f,
        ensures
            final(self).wf(),
            final(self)@ == with_reg(old(self)@, dec_reg_spec(old(self)@.reg, reg_name)),
            r == (1u16, 4u64),
    {
        let v = self.name_get(reg_name);
        let res = if v == 0 {
            255
        } else {
            v - 1
        };
        let c = self.reg.get_c();
        self.reg.set_flags(res == 0, true, v % 16 == 0, c);
        self.name_set(reg_name, res);
        proof {
            assert(self@ =~= with_reg(old(self)@, dec_reg_spec(old(self)@.reg, reg_name)));
        }
        (1, 4)
    }

    /// ADD HL,rr: N cleared, H from bit 11, C out of bit 15, Z untouched.
    pub fn add_hl(&mut self, operand: u16) -> (r: (u16, u64))
        requires
            old(self).wf(),
        ensures
            final(self).wf(),
            final(self)@ == with_reg(old(self)@, add_hl_spec(old(self)@.reg, operand)),
            r == (1u16, 8u64),
    {
        let hl = self.reg.get_hl();
        let h = check_add_half_carry_16(hl, operand);
        let c = hl > 0xFFFF - operand;
        let res = wadd(hl, operand);
        let z = self.reg.get_z();
        self.reg.set_hl(res);
        self.reg.set_flags(z, false, h, c);
        proof {
            assert(self@ =~= with_reg(old(self)@, add_hl_spec(old(self)@.reg, operand)));
        }
        (1, 8)
    }

    /// Evaluate one of the four condition codes NZ, Z, NC, C.
    fn cond_eval(&self, i: u8) -> (r: bool)
        requires
            i < 4,
        ensures
            r == cond_of(self.reg, i as int),
    {
        if i == 0 {
            !self.reg.get_z()
        } else if i == 1 {
            self.reg.get_z()
        } else if i == 2 {
            !self.reg.get_c()
        } else {
            self.reg.get_c()
        }
    }

    /// INC (HL).
    fn op_inc_hl(&mut self) -> (r: (u16, u64))
        requires
            old(self).wf(),
        ensures
            final(self).wf(),
            final(self)@ == spec_inc8(old(self)@, 6).0,
            r.0 == spec_inc8(old(self)@, 6).1,
            r.1 == spec_inc8(old(self)@, 6).2,
    {
        let v = self.operand_get(6);
        let res = if v == 255 {
            0
        } else {
            v + 1
        };
        let c = self.reg.get_c();
        self.reg.set_flags(res == 0, false, v % 16 == 15, c);
        self.operand_set(6, res);
        proof {
            assert(self@ =~= spec_inc8(old(self)@, 6).0);
        }
        (1, 12)
    }

    /// DEC (HL).
    fn op_dec_hl(&mut self) -> (r: (u16, u64))
        requires
            old(self).wf(),
        ensures
            final(self).wf(),
            final(self)@ == spec_dec8(old(self)@, 6).0,
            r.0 == spec_dec8(old(self)@, 6).1,
            r.1 == spec_dec8(old(self)@, 6).2,
    {
        let v = self.operand_get(6);
        let res = if v == 0 {
            255
        } else {
            v - 1
        };
        let c = self.reg.get_c();
        self.reg.set_flags(res == 0, true, v % 16 == 0, c);
        self.operand_set(6, res);
        proof {
            assert(self@ =~= spec_dec8(old(self)@, 6).0);
        }
        (1, 12)
    }

    /// LD r,r' over the 0x40-0x7F matrix.
    fn op_ld_r_r(&mut self, op: u8) -> (r: (u16, u64))
        requires
            old(self).wf(),
            0x40 <= op < 0x80,
            op != 0x76,
        ensures
            final(self).wf(),
            final(self)@ == spec_ld_r_r(old(self)@, op).0,
            r.0 == spec_ld_r_r(old(self)@, op).1,
            r.1 == spec_ld_r_r(old(self)@, op).2,
    {
        let dst = (op - 0x40) / 8;
        let src = op % 8;
        if src == 6 {
            let addr = self.reg.get_hl();
            let v = self.mem.get_mem(addr);
            self.reg_set8(dst, v);
            proof {
                assert(self@ =~= spec_ld_r_r(old(self)@, op).0);
            }
            (1, 8)
        } else if dst == 6 {
            let v = self.reg_get8(src);
            let addr = self.reg.get_hl();
            self.mem.set_mem(addr, v);
            proof {
                assert(self@ =~= spec_ld_r_r(old(self)@, op).0);
            }
            (1, 8)
        } else {
            let v = self.reg_get8(src);
            self.reg_set8(dst, v);
            proof {
                assert(self@ =~= spec_ld_r_r(old(self)@, op).0);
            }
            (1, 4)
        }
    }

    /// Dispatch one of the eight ALU operations on an operand value.
    fn alu_dispatch(&mut self, k: u8, v: u8)
        requires
            old(self).wf(),
            k < 8,
        ensures
            final(self).wf(),
            final(self)@ == with_reg(old(self)@, alu_apply(old(self)@.reg, k as int, v)),
    {
        if k == 0 {
            self.add_a(v);
        } else if k == 1 {
            self.adc_a(v);
        } else if k == 2 {
            self.sub_a(v);
        } else if k == 3 {
            self.subc_a(v);
        } else if k == 4 {
            let _ = self.and_a(v);
        } else if k == 5 {
            let _ = self.xor_a(v);
        } else if k == 6 {
            let _ = self.or_a(v);
        } else {
            self.cp_a(v);
        }
    }

    /// The ALU rows 0x80-0xBF.
    fn op_alu_r(&mut self, op: u8) -> (r: (u16, u64))
        requires
            old(self).wf(),
            0x80 <= op < 0xC0,
        ensures
            final(self).wf(),
            final(self)@ == spec_alu_r(old(self)@, op).0,
            r.0 == spec_alu_r(old(self)@, op).1,
            r.1 == spec_alu_r(old(self)@, op).2,
    {
        let k = (op - 0x80) / 8;
        let i = op % 8;
        let v = self.operand_get(i);
        self.alu_dispatch(k, v);
        (1, if i == 6 {
            8
        } else {
            4
        })
    }

    /// The immediate-operand ALU column 0xC6-0xFE.
    fn op_alu_n(&mut self, op: u8) -> (r: (u16, u64))
        requires
            old(self).wf(),
            0xC0 <= op,
            op % 8 == 6,
        ensures
            final(self).wf(),
            final(self)@ == spec_alu_n(old(self)@, op).0,
            r.0 == spec_alu_n(old(self)@, op).1,
            r.1 == spec_alu_n(old(self)@, op).2,
    {
        let k = (op - 0xC0) / 8;
        let v = self.get_8_pc(1);
        self.alu_dispatch(k, v);
        (2, 8)
    }

    /// LD r,n / LD (HL),n.
    fn op_ld_r_n(&mut self, op: u8) -> (r: (u16, u64))
        requires
            old(self).wf(),
            op < 0x40,
            op % 8 == 6,
        ensures
            final(self).wf(),
            final(self)@ == spec_ld_r_n(old(self)@, op as int / 8).0,
            r.0 == spec_ld_r_n(old(self)@, op as int / 8).1,
            r.1 == spec_ld_r_n(old(self)@, op as int / 8).2,
    {
        let i = op / 8;
        let v = self.get_8_pc(1);
        self.operand_set(i, v);
        (2, if i == 6 {
            12
        } else {
            8
        })
    }

    /// LD rr,nn.
    fn op_ld_rr_nn(&mut self, op: u8) -> (r: (u16, u64))
        requires
            old(self).wf(),
            op == 0x01 || op == 0x11 || op == 0x21 || op == 0x31,
        ensures
            final(self).wf(),
            final(self)@ == spec_ld_rr_nn(old(self)@, op as int / 16).0,
            r.0 == spec_ld_rr_nn(old(self)@, op as int / 16).1,
            r.1 == spec_ld_rr_nn(old(self)@, op as int / 16).2,
    {
        let v = self.get_16_pc(1);
        if op == 0x01 {
            self.reg.set_bc(v);
        } else if op == 0x11 {
            self.reg.set_de(v);
        } else if op == 0x21 {
            self.reg.set_hl(v);
        } else {
            self.reg.sp = v;
        }
        proof {
            assert(self@ =~= spec_ld_rr_nn(old(self)@, op as int / 16).0);
        }
        (3, 12)
    }

    /// INC rr: 16-bit, no flags.
    fn op_inc16(&mut self, op: u8) -> (r: (u16, u64))
        requires
            old(self).wf(),
            op == 0x03 || op == 0x13 || op == 0x23 || op == 0x33,
        ensures
            final(self).wf(),
            final(self)@ == with_reg(
                old(self)@,
                set_rr(
                    old(self)@.reg,
                    op as int / 16,
                    wadd16(get_rr(old(self)@.reg, op as int / 16), 1),
                ),
            ),
            r == (1u16, 8u64),
    {
        if op == 0x03 {
            let v = self.reg.get_bc();
            let v2 = wadd(v, 1);
            self.reg.set_bc(v2);
        } else if op == 0x13 {
            let v = self.reg.get_de();
            let v2 = wadd(v, 1);
            self.reg.set_de(v2);
        } else if op == 0x23 {
            let v = self.reg.get_hl();
            let v2 = wadd(v, 1);
            self.reg.set_hl(v2);
        } else {
            self.reg.sp = wadd(self.reg.sp, 1);
        }
        proof {
            assert(self@ =~= with_reg(
                old(self)@,
                set_rr(
                    old(self)@.reg,
                    op as int / 16,
                    wadd16(get_rr(old(self)@.reg, op as int / 16), 1),
                ),
            ));
        }
        (1, 8)
    }

    /// DEC rr: 16-bit, no flags.
    fn op_dec16(&mut self, op: u8) -> (r: (u16, u64))
        requires
            old(self).wf(),
            op == 0x0B || op == 0x1B || op == 0x2B || op == 0x3B,
        ensures
            final(self).wf(),
            final(self)@ == with_reg(
                old(self)@,
                set_rr(
                    old(self)@.reg,
                    op as int / 16,
                    wadd16(get_rr(old(self)@.reg, op as int / 16), -1),
                ),
            ),
            r == (1u16, 8u64),
    {
        if op == 0x0B {
            let v = self.reg.get_bc();
            let v2 = wsub(v, 1);
            self.reg.set_bc(v2);
        } else if op == 0x1B {
            let v = self.reg.get_de();
            let v2 = wsub(v, 1);
            self.reg.set_de(v2);
        } else if op == 0x2B {
            let v = self.reg.get_hl();
            let v2 = wsub(v, 1);
            self.reg.set_hl(v2);
        } else {
            self.reg.sp = wsub(self.reg.sp, 1);
        }
        proof {
            assert(self@ =~= with_reg(
                old(self)@,
                set_rr(
                    old(self)@.reg,
                    op as int / 16,
                    wadd16(get_rr(old(self)@.reg, op as int / 16), -1),
                ),
            ));
        }
        (1, 8)
    }

    /// The indirect A loads and stores via BC, DE, HL+ and HL-.
    fn op_indirect(&mut self, op: u8) -> (r: (u16, u64))
        requires
            old(self).wf(),
            op < 0x40,
            op % 8 == 2,
        ensures
            final(self).wf(),
            final(self)@ == spec_indirect(old(self)@, op).0,
            r.0 == spec_indirect(old(self)@, op).1,
            r.1 == spec_indirect(old(self)@, op).2,
    {
        match op {
            0x02 => {
                let addr = self.reg.get_bc();
                let a = self.reg.a;
                self.mem.set_mem(addr, a);
            },
            0x12 => {
                let addr = self.reg.get_de();
                let a = self.reg.a;
                self.mem.set_mem(addr, a);
            },
            0x22 => {
                let addr = self.reg.get_hl();
                let a = self.reg.a;
                self.mem.set_mem(addr, a);
                let n = wadd(addr, 1);
                self.reg.set_hl(n);
            },
            0x32 => {
                let addr = self.reg.get_hl();
                let a = self.reg.a;
                self.mem.set_mem(addr, a);
                let n = wsub(addr, 1);
                self.reg.set_hl(n);
            },
            0x0A => {
                let addr = self.reg.get_bc();
                self.reg.a = self.mem.get_mem(addr);
            },
            0x1A => {
                let addr = self.reg.get_de();
                self.reg.a = self.mem.get_mem(addr);
            },
            0x2A => {
                let addr = self.reg.get_hl();
                self.reg.a = self.mem.get_mem(addr);
                let n = wadd(addr, 1);
                self.reg.set_hl(n);
            },
            _ => {
                let addr = self.reg.get_hl();
                self.reg.a = self.mem.get_mem(addr);
                let n = wsub(addr, 1);
                self.reg.set_hl(n);
            },
        }
        proof {
            assert(self@ =~= spec_indirect(old(self)@, op).0);
        }
        (1, 8)
    }

    /// LD (nn),SP.
    fn op_ld_nn_sp(&mut self) -> (r: (u16, u64))
        requires
            old(self).wf(),
        ensures
            final(self).wf(),
            final(self)@ == spec_ld_nn_sp(old(self)@).0,
            r.0 == spec_ld_nn_sp(old(self)@).1,
            r.1 == spec_ld_nn_sp(old(self)@).2,
    {
        let addr = self.get_16_pc(1);
        let lo = (self.reg.sp % 256) as u8;
        let hi = (self.reg.sp / 256) as u8;
        self.mem.set_mem(addr, lo);
        let addr2 = wadd(addr, 1);
        self.mem.set_mem(addr2, hi);
        proof {
            assert(self@ =~= spec_ld_nn_sp(old(self)@).0);
        }
        (3, 20)
    }

    /// The accumulator rotates, DAA, CPL, SCF and CCF.
    fn op_acc_misc(&mut self, op: u8) -> (r: (u16, u64))
        requires
            old(self).wf(),
            op < 0x40,
            op % 8 == 7,
        ensures
            final(self).wf(),
            final(self)@ == spec_acc_misc(old(self)@, op).0,
            r.0 == spec_acc_misc(old(self)@, op).1,
            r.1 == spec_acc_misc(old(self)@, op).2,
    {
        let a = self.reg.a;
        if op == 0x07 {
            self.reg.a = (a << 1) | (a >> 7);
            self.reg.set_flags(false, false, false, (a >> 7) == 1);
        } else if op == 0x0F {
            self.reg.a = (a >> 1) | (a << 7);
            self.reg.set_flags(false, false, false, (a & 1) == 1);
        } else if op == 0x17 {
            let cf = self.reg.get_c();
            self.reg.a = (a << 1) | (if cf {
                1
            } else {
                0
            });
            self.reg.set_flags(false, false, false, (a >> 7) == 1);
        } else if op == 0x1F {
            let cf = self.reg.get_c();
            self.reg.a = (a >> 1) | (if cf {
                0x80
            } else {
                0
            });
            self.reg.set_flags(false, false, false, (a & 1) == 1);
        } else if op == 0x27 {
            self.op_daa();
        } else if op == 0x2F {
            self.reg.a = !a;
            let z = self.reg.get_z();
            let c = self.reg.get_c();
            self.reg.set_flags(z, true, true, c);
        } else if op == 0x37 {
            let z = self.reg.get_z();
            self.reg.set_flags(z, false, false, true);
        } else {
            let z = self.reg.get_z();
            let c = self.reg.get_c();
            self.reg.set_flags(z, false, false, !c);
        }
        proof {
            assert(self@ =~= spec_acc_misc(old(self)@, op).0);
        }
        (1, 4)
    }

    /// DAA: decimal-adjust A.
    fn op_daa(&mut self)
        requires
            old(self).wf(),
        ensures
            final(self).wf(),
            final(self)@ == with_reg(old(self)@, daa_spec(old(self)@.reg)),
    {
        let n = self.reg.get_n();
        let h = self.reg.get_h();
        let c = self.reg.get_c();
        let a0 = self.reg.a;
        if !n {
            let adj_high = c || a0 > 0x99;
            let a1 = if adj_high {
                let s1 = a0 as u16 + 0x60;
                if s1 > 255 {
                    (s1 - 256) as u8
                } else {
                    s1 as u8
                }
            } else {
                a0
            };
            let a2 = if h || a1 % 16 > 9 {
                let s2 = a1 as u16 + 6;
                if s2 > 255 {
                    (s2 - 256) as u8
                } else {
                    s2 as u8
                }
            } else {
                a1
            };
            self.reg.a = a2;
            self.reg.set_flags(a2 == 0, false, false, adj_high || c);
        } else {
            let a1 = if c {
                if a0 >= 0x60 {
                    a0 - 0x60
                } else {
                    (a0 as u16 + 256 - 0x60) as u8
                }
            } else {
                a0
            };
            let a2 = if h {
                if a1 >= 6 {
                    a1 - 6
                } else {
                    (a1 as u16 + 250) as u8
                }
            } else {
                a1
            };
            self.reg.a = a2;
            self.reg.set_flags(a2 == 0, true, false, c);
        }
        proof {
            assert(self@ =~= with_reg(old(self)@, daa_spec(old(self)@.reg)));
        }
    }

    /// JR e / JR cc,e with the branch decision already taken.
    fn op_jr(&mut self, taken: bool) -> (r: (u16, u64))
        requires
            old(self).wf(),
        ensures
            final(self).wf(),
            final(self)@ == spec_jr(old(self)@, taken).0,
            r.0 == spec_jr(old(self)@, taken).1,
            r.1 == spec_jr(old(self)@, taken).2,
    {
        if taken {
            let e = self.get_8_pc(1);
            let base = wadd(self.reg.pc, 2);
            let t = if e < 0x80 {
                wadd(base, e as u16)
            } else {
                wsub(wadd(base, e as u16), 256)
            };
            proof {
                lemma_wadd16_chain(old(self)@.reg.pc, 2, e as int);
                if e >= 0x80 {
                    lemma_wadd16_chain(old(self)@.reg.pc, 2 + e as int, -256);
                }
            }
            self.reg.pc = t;
            proof {
                assert(self@ =~= spec_jr(old(self)@, true).0);
            }
            (0, 12)
        } else {
            (2, 8)
        }
    }

    /// JP nn / JP cc,nn with the branch decision already taken.
    fn op_jp(&mut self, taken: bool) -> (r: (u16, u64))
        requires
            old(self).wf(),
        ensures
            final(self).wf(),
            final(self)@ == spec_jp(old(self)@, taken).0,
            r.0 == spec_jp(old(self)@, taken).1,
            r.1 == spec_jp(old(self)@, taken).2,
    {
        if taken {
            let t = self.get_16_pc(1);
            self.reg.pc = t;
            proof {
                assert(self@ =~= spec_jp(old(self)@, true).0);
            }
            (0, 16)
        } else {
            (3, 12)
        }
    }

    /// CALL nn / CALL cc,nn with the branch decision already taken: pushes
    /// the address after the 3-byte instruction.
    fn op_call(&mut self, taken: bool) -> (r: (u16, u64))
        requires
            old(self).wf(),
        ensures
            final(self).wf(),
            final(self)@ == spec_call(old(self)@, taken).0,
            r.0 == spec_call(old(self)@, taken).1,
            r.1 == spec_call(old(self)@, taken).2,
    {
        if taken {
            let target = self.get_16_pc(1);
            let ret = wadd(self.reg.pc, 3);
            self.push(ret);
            self.reg.pc = target;
            proof {
                assert(self@ =~= spec_call(old(self)@, true).0);
            }
            (0, 24)
        } else {
            (3, 12)
        }
    }

    /// RET cc with the condition already evaluated.
    fn op_ret_cc(&mut self, taken: bool) -> (r: (u16, u64))
        requires
            old(self).wf(),
        ensures
            final(self).wf(),
            final(self)@ == spec_ret(old(self)@, taken, 20).0,
            r.0 == spec_ret(old(self)@, taken, 20).1,
            r.1 == spec_ret(old(self)@, taken, 20).2,
    {
        if taken {
            let v = self.pop();
            self.reg.pc = v;
            proof {
                assert(self@ =~= spec_ret(old(self)@, true, 20).0);
            }
            (0, 20)
        } else {
            (1, 8)
        }
    }

    /// RET.
    fn op_ret(&mut self) -> (r: (u16, u64))
        requires
            old(self).wf(),
        ensures
            final(self).wf(),
            final(self)@ == spec_ret(old(self)@, true, 16).0,
            r.0 == spec_ret(old(self)@, true, 16).1,
            r.1 == spec_ret(old(self)@, true, 16).2,
    {
        let v = self.pop();
        self.reg.pc = v;
        proof {
            assert(self@ =~= spec_ret(old(self)@, true, 16).0);
        }
        (0, 16)
    }

    /// RETI: return and set IME.
    fn op_reti(&mut self) -> (r: (u16, u64))
        requires
            old(self).wf(),
        ensures
            final(self).wf(),
            final(self)@ == (CoreView { ime: true, ..spec_ret(old(self)@, true, 16).0 }),
            r.0 == spec_ret(old(self)@, true, 16).1,
            r.1 == spec_ret(old(self)@, true, 16).2,
    {
        let v = self.pop();
        self.reg.pc = v;
        self.int.toggle(true);
        proof {
            assert(self@ =~= (CoreView { ime: true, ..spec_ret(old(self)@, true, 16).0 }));
        }
        (0, 16)
    }

    /// RST: push the next instruction's address, jump to a page-zero
    /// vector.
    fn op_rst(&mut self, op: u8) -> (r: (u16, u64))
        requires
            old(self).wf(),
            0xC0 <= op,
            op % 8 == 7,
        ensures
            final(self).wf(),
            final(self)@ == spec_rst(old(self)@, (op - 0xC7) as u16).0,
            r.0 == spec_rst(old(self)@, (op - 0xC7) as u16).1,
            r.1 == spec_rst(old(self)@, (op - 0xC7) as u16).2,
    {
        let ret = wadd(self.reg.pc, 1);
        self.push(ret);
        self.reg.pc = (op - 0xC7) as u16;
        proof {
            assert(self@ =~= spec_rst(old(self)@, (op - 0xC7) as u16).0);
        }
        (0, 16)
    }

    /// PUSH rr.
    fn op_push_rr(&mut self, op: u8) -> (r: (u16, u64))
        requires
            old(self).wf(),
            op == 0xC5 || op == 0xD5 || op == 0xE5 || op == 0xF5,
        ensures
            final(self).wf(),
            final(self)@ == spec_push(old(self)@, op).0,
            r.0 == spec_push(old(self)@, op).1,
            r.1 == spec_push(old(self)@, op).2,
    {
        let v = if op == 0xC5 {
            self.reg.get_bc()
        } else if op == 0xD5 {
            self.reg.get_de()
        } else if op == 0xE5 {
            self.reg.get_hl()
        } else {
            self.reg.get_af()
        };
        self.push(v);
        (1, 16)
    }

    /// POP rr, with AF clearing the low nibble of F.
    fn op_pop_rr(&mut self, op: u8) -> (r: (u16, u64))
        requires
            old(self).wf(),
            op == 0xC1 || op == 0xD1 || op == 0xE1 || op == 0xF1,
        ensures
            final(self).wf(),
            final(self)@ == spec_pop(old(self)@, op).0,
            r.0 == spec_pop(old(self)@, op).1,
            r.1 == spec_pop(old(self)@, op).2,
    {
        let v = self.pop();
        if op == 0xC1 {
            self.reg.set_bc(v);
        } else if op == 0xD1 {
            self.reg.set_de(v);
        } else if op == 0xE1 {
            self.reg.set_hl(v);
        } else {
            self.reg.set_af(v);
        }
        proof {
            assert(self@ =~= spec_pop(old(self)@, op).0);
        }
        (1, 12)
    }

    /// One CB-prefixed instruction, given the already-fetched sub-opcode.
    pub fn handle_cb(&mut self, op: u8) -> (r: (u16, u64))
        requires
            old(self).wf(),
        ensures
            final(self).wf(),
            final(self)@ == cb_instr(old(self)@, op).0,
            r.0 == cb_instr(old(self)@, op).1,
            r.1 == cb_instr(old(self)@, op).2,
    {
        let i = op % 8;
        let v = self.operand_get(i);
        let cyc: u64 = if i == 6 {
            16
        } else {
            8
        };
        if op < 0x40 {
            let g = op / 8;
            let cf = self.reg.get_c();
            let res: u8 = if g == 0 {
                (v << 1) | (v >> 7)
            } else if g == 1 {
                (v >> 1) | (v << 7)
            } else if g == 2 {
                (v << 1) | (if cf {
                    1
                } else {
                    0
                })
            } else if g == 3 {
                (v >> 1) | (if cf {
                    0x80
                } else {
                    0
                })
            } else if g == 4 {
                v << 1
            } else if g == 5 {
                (v >> 1) | (v & 0x80)
            } else if g == 6 {
                (v >> 4) | (v << 4)
            } else {
                v >> 1
            };
            let cout: bool = if g == 0 || g == 2 || g == 4 {
                (v >> 7) == 1
            } else if g == 6 {
                false
            } else {
                (v & 1) == 1
            };
            self.operand_set(i, res);
            self.reg.set_flags(res == 0, false, false, cout);
            proof {
                assert(self@ =~= cb_instr(old(self)@, op).0);
            }
            (2, cyc)
        } else if op < 0x80 {
            let b = op / 8 - 8;
            let m = mask_of(b);
            let z = (v & m) == 0;
            let c = self.reg.get_c();
            self.reg.set_flags(z, false, true, c);
            proof {
                assert(self@ =~= cb_instr(old(self)@, op).0);
            }
            (2, cyc)
        } else if op < 0xC0 {
            let b = op / 8 - 16;
            let m = mask_of(b);
            self.operand_set(i, v & !m);
            proof {
                assert(self@ =~= cb_instr(old(self)@, op).0);
            }
            (2, cyc)
        } else {
            let b = op / 8 - 24;
            let m = mask_of(b);
            self.operand_set(i, v | m);
            proof {
                assert(self@ =~= cb_instr(old(self)@, op).0);
            }
            (2, cyc)
        }
    }
}

impl Core {
    /// Decode and execute the instruction whose opcode is `op`, leaving the
    /// post-dispatch program-counter advance and the peripheral tick to the
    /// caller.  Returns the advance in bytes and the cycle cost.
    #[verifier::rlimit(60)]
    fn exec_op(&mut self, op: u8) -> (r: (u16, u64))
        requires
            old(self).wf(),
            op_supported(op),
        ensures
            final(self).wf(),
            final(self)@ == instr_spec(old(self)@, op).0,
            r.0 == instr_spec(old(self)@, op).1,
            r.1 == instr_spec(old(self)@, op).2,
            final(self)@.cycles == old(self)@.cycles,
            final(self)@.ly == old(self)@.ly,
            final(self)@.dacc == old(self)@.dacc,
            r.1 <= 24,
    {
        proof {
            reveal(instr_spec);
        }
        match op {
            0x00 => (1, 4),
            0x76 => (1, 4),
            0x01 | 0x11 | 0x21 | 0x31 => self.op_ld_rr_nn(op),
            0x03 | 0x13 | 0x23 | 0x33 => self.op_inc16(op),
            0x0B | 0x1B | 0x2B | 0x3B => self.op_dec16(op),
            0x02 | 0x12 | 0x22 | 0x32 | 0x0A | 0x1A | 0x2A | 0x3A => self.op_indirect(op),
            0x08 => self.op_ld_nn_sp(),
            0x09 => {
                let v = self.reg.get_bc();
                self.add_hl(v)
            },
            0x19 => {
                let v = self.reg.get_de();
                self.add_hl(v)
            },
            0x29 => {
                let v = self.reg.get_hl();
                self.add_hl(v)
            },
            0x39 => {
                let v = self.reg.sp;
                self.add_hl(v)
            },
            0x04 => self.inc_reg(RegisterName::b),
            0x0C => self.inc_reg(RegisterName::c),
            0x14 => self.inc_reg(RegisterName::d),
            0x1C => self.inc_reg(RegisterName::e),
            0x24 => self.inc_reg(RegisterName::h),
            0x2C => self.inc_reg(RegisterName::l),
            0x34 => self.op_inc_hl(),
            0x3C => self.inc_reg(RegisterName::a),
            0x05 => self.dec_reg(RegisterName::b),
            0x0D => self.dec_reg(RegisterName::c),
            0x15 => self.dec_reg(RegisterName::d),
            0x1D => self.dec_reg(RegisterName::e),
            0x25 => self.dec_reg(RegisterName::h),
            0x2D => self.dec_reg(RegisterName::l),
            0x35 => self.op_dec_hl(),
            0x3D => self.dec_reg(RegisterName::a),
            0x06 | 0x0E | 0x16 | 0x1E | 0x26 | 0x2E | 0x36 | 0x3E => self.op_ld_r_n(op),
            0x07 | 0x0F | 0x17 | 0x1F | 0x27 | 0x2F | 0x37 | 0x3F => self.op_acc_misc(op),
            0x18 => self.op_jr(true),
            0x20 => {
                let t = self.cond_eval(0);
                self.op_jr(t)
            },
            0x28 => {
                let t = self.cond_eval(1);
                self.op_jr(t)
            },
            0x30 => {
                let t = self.cond_eval(2);
                self.op_jr(t)
            },
            0x38 => {
                let t = self.cond_eval(3);
                self.op_jr(t)
            },
            0x40..=0x75 | 0x77..=0x7F => self.op_ld_r_r(op),
            0x80..=0xBF => self.op_alu_r(op),
            0xC6 | 0xCE | 0xD6 | 0xDE | 0xE6 | 0xEE | 0xF6 | 0xFE => self.op_alu_n(op),
            0xC0 => {
                let t = self.cond_eval(0);
                self.op_ret_cc(t)
            },
            0xC8 => {
                let t = self.cond_eval(1);
                self.op_ret_cc(t)
            },
            0xD0 => {
                let t = self.cond_eval(2);
                self.op_ret_cc(t)
            },
            0xD8 => {
                let t = self.cond_eval(3);
                self.op_ret_cc(t)
            },
            0xC9 => self.op_ret(),
            0xD9 => self.op_reti(),
            0xC1 | 0xD1 | 0xE1 | 0xF1 => self.op_pop_rr(op),
            0xC5 | 0xD5 | 0xE5 | 0xF5 => self.op_push_rr(op),
            0xC3 => self.op_jp(true),
            0xC2 => {
                let t = self.cond_eval(0);
                self.op_jp(t)
            },
            0xCA => {
                let t = self.cond_eval(1);
                self.op_jp(t)
            },
            0xD2 => {
                let t = self.cond_eval(2);
                self.op_jp(t)
            },
            0xDA => {
                let t = self.cond_eval(3);
                self.op_jp(t)
            },
            0xE9 => {
                let hl = self.reg.get_hl();
                self.reg.pc = hl;
                proof {
                    assert(self@ =~= with_pc(old(self)@, crate::registers::hl_of(old(self)@.reg)));
                }
                (0, 4)
            },
            0xCD => self.op_call(true),
            0xC4 => {
                let t = self.cond_eval(0);
                self.op_call(t)
            },
            0xCC => {
                let t = self.cond_eval(1);
                self.op_call(t)
            },
            0xD4 => {
                let t = self.cond_eval(2);
                self.op_call(t)
            },
            0xDC => {
                let t = self.cond_eval(3);
                self.op_call(t)
            },
            0xC7 | 0xCF | 0xD7 | 0xDF | 0xE7 | 0xEF | 0xF7 | 0xFF => self.op_rst(op),
            0xE0 => {
                let n = self.get_8_pc(1);
                let addr = wadd(0xFF00, n as u16);
                let a = self.reg.a;
                self.mem.set_mem(addr, a);
                proof {
                    assert(self@ =~= write8(
                        old(self)@,
                        wadd16(0xFF00, imm8(old(self)@) as int),
                        old(self)@.reg.a,
                    ));
                }
                (2, 12)
            },
            0xF0 => {
                let n = self.get_8_pc(1);
                let addr = wadd(0xFF00, n as u16);
                let v = self.mem.get_mem(addr);
                self.reg.a = v;
                proof {
                    assert(self@ =~= instr_spec(old(self)@, op).0);
                }
                (2, 12)
            },
            0xE2 => {
                let addr = wadd(0xFF00, self.reg.c as u16);
                let a = self.reg.a;
                self.mem.set_mem(addr, a);
                proof {
                    assert(self@ =~= instr_spec(old(self)@, op).0);
                }
                (1, 8)
            },
            0xF2 => {
                let addr = wadd(0xFF00, self.reg.c as u16);
                let v = self.mem.get_mem(addr);
                self.reg.a = v;
                proof {
                    assert(self@ =~= instr_spec(old(self)@, op).0);
                }
                (1, 8)
            },
            0xEA => {
                let addr = self.get_16_pc(1);
                let a = self.reg.a;
                self.mem.set_mem(addr, a);
                proof {
                    assert(self@ =~= instr_spec(old(self)@, op).0);
                }
                (3, 16)
            },
            0xFA => {
                let addr = self.get_16_pc(1);
                let v = self.mem.get_mem(addr);
                self.reg.a = v;
                proof {
                    assert(self@ =~= instr_spec(old(self)@, op).0);
                }
                (3, 16)
            },
            0xF3 => {
                self.int.toggle(false);
                proof {
                    assert(self@ =~= (CoreView { ime: false, ..old(self)@ }));
                }
                (1, 4)
            },
            0xFB => {
                self.int.toggle(true);
                proof {
                    assert(self@ =~= (CoreView { ime: true, ..old(self)@ }));
                }
                (1, 4)
            },
            0xCB => {
                let n = self.get_8_pc(1);
                self.handle_cb(n)
            },
            _ => unreached(),
        }
    }

    /// Execute one instruction: fetch at PC, dispatch, advance PC by the
    /// reported length, then advance the display and the timer by the cycle
    /// cost.
    pub fn step(&mut self)
        requires
            old(self).wf(),
            op_supported(cur_op(old(self)@)),
            old(self)@.cycles + 24 <= u64::MAX,
        ensures
            final(self).wf(),
            final(self)@ == step_spec(old(self)@),
            final(self)@.cycles == old(self)@.cycles + step_cycles(old(self)@),
    {
        let op = self.mem.get_mem(self.reg.pc);
        let lc = self.exec_op(op);
        self.reg.pc = wadd(self.reg.pc, lc.0);
        self.mem.update(lc.1);
        proof {
            assert(self@ =~= step_spec(old(self)@));
        }
    }

    /// Whether the byte at PC is an opcode the core implements: what a host
    /// must check before calling `step`.
    pub fn can_step(&self) -> (r: bool)
        requires
            self.wf(),
        ensures
            r == op_supported(cur_op(self@)),
    {
        let op = self.mem.get_mem(self.reg.pc);
        op_implemented(op)
    }
}

/// Whether an opcode is part of the implemented primary table.
pub fn op_implemented(op: u8) -> (r: bool)
    ensures
        r == op_supported(op),
{
    !(op == 0x10 || op == 0xD3 || op == 0xDB || op == 0xDD || op == 0xE3 || op == 0xE4 || op
        == 0xE8 || op == 0xEB || op == 0xEC || op == 0xED || op == 0xF4 || op == 0xF8 || op == 0xF9
        || op == 0xFC || op == 0xFD)
}

/// The single-bit mask a 3-bit field selects.
fn mask_of(b: u8) -> (r: u8)
    requires
        b < 8,
    ensures
        r == bit_mask(b as int),
{
    if b == 0 {
        0x01
    } else if b == 1 {
        0x02
    } else if b == 2 {
        0x04
    } else if b == 3 {
        0x08
    } else if b == 4 {
        0x10
    } else if b == 5 {
        0x20
    } else if b == 6 {
        0x40
    } else {
        0x80
    }
}

} // verus!
