//! The CPU register file: eight 8-bit cells, the 16-bit stack pointer and
//! program counter, paired 16-bit views, and the four flag bits packed into
//! the high nibble of F.

use vstd::prelude::*;

verus! {

use vstd::arithmetic::div_mod::lemma_fundamental_div_mod;
use vstd::arithmetic::div_mod::lemma_fundamental_div_mod_converse_div;

/// Names of the eight 8-bit CPU registers.
#[allow(non_camel_case_types)]
#[derive(Clone, Copy, PartialEq, Eq, Structural)]
pub enum RegisterName {
    a,
    f,
    b,
    c,
    d,
    e,
    h,
    l,
}

/// The register file.  F holds the four flag bits in its high nibble:
/// bit 7 = Z (zero), bit 6 = N (subtraction), bit 5 = H (half-carry),
/// bit 4 = C (carry); its low nibble is cleared by every flag write.
#[verifier::ext_equal]
pub struct Registers {
    pub a: u8,
    pub f: u8,
    pub b: u8,
    pub c: u8,
    pub d: u8,
    pub e: u8,
    pub h: u8,
    pub l: u8,
    pub sp: u16,
    pub pc: u16,
}

/// The 16-bit value formed by a register pair, high byte first.
pub open spec fn pair16(hi: u8, lo: u8) -> u16 {
    (hi * 256 + lo) as u16
}

/// High byte of a 16-bit value.
pub open spec fn hi8(v: u16) -> u8 {
    (v / 256) as u8
}

/// Low byte of a 16-bit value.
pub open spec fn lo8(v: u16) -> u8 {
    (v % 256) as u8
}

/// The low byte of `v` with its low nibble cleared: what lands in F when a
/// 16-bit value is written to AF.
pub open spec fn f_masked(v: u16) -> u8 {
    ((v % 256) / 16 * 16) as u8
}

/// The F byte encoding the four flags, low nibble zero.
pub open spec fn flags_value(z: bool, n: bool, h: bool, c: bool) -> u8 {
    ((if z {
        0x80int
    } else {
        0int
    }) + (if n {
        0x40int
    } else {
        0int
    }) + (if h {
        0x20int
    } else {
        0int
    }) + (if c {
        0x10int
    } else {
        0int
    })) as u8
}

/// Bit 7 of F: the zero flag.
pub open spec fn flag_z(f: u8) -> bool {
    f / 0x80 % 2 == 1
}

/// Bit 6 of F: the subtraction flag.
pub open spec fn flag_n(f: u8) -> bool {
    f / 0x40 % 2 == 1
}

/// Bit 5 of F: the half-carry flag.
pub open spec fn flag_h(f: u8) -> bool {
    f / 0x20 % 2 == 1
}

/// Bit 4 of F: the carry flag.
pub open spec fn flag_c(f: u8) -> bool {
    f / 0x10 % 2 == 1
}

/// `r` with AF set to `v` (low nibble of F cleared).
pub open spec fn with_af(r: Registers, v: u16) -> Registers {
    Registers { a: hi8(v), f: f_masked(v), ..r }
}

/// `r` with BC set to `v`.
pub open spec fn with_bc(r: Registers, v: u16) -> Registers {
    Registers { b: hi8(v), c: lo8(v), ..r }
}

/// `r` with DE set to `v`.
pub open spec fn with_de(r: Registers, v: u16) -> Registers {
    Registers { d: hi8(v), e: lo8(v), ..r }
}

/// `r` with HL set to `v`.
pub open spec fn with_hl(r: Registers, v: u16) -> Registers {
    Registers { h: hi8(v), l: lo8(v), ..r }
}

/// `r` with all four flags rewritten (low nibble of F cleared).
pub open spec fn with_flags(r: Registers, z: bool, n: bool, h: bool, c: bool) -> Registers {
    Registers { f: flags_value(z, n, h, c), ..r }
}

/// The paired AF view of `r`.
pub open spec fn af_of(r: Registers) -> u16 {
    pair16(r.a, r.f)
}

/// The paired BC view of `r`.
pub open spec fn bc_of(r: Registers) -> u16 {
    pair16(r.b, r.c)
}

/// The paired DE view of `r`.
pub open spec fn de_of(r: Registers) -> u16 {
    pair16(r.d, r.e)
}

/// The paired HL view of `r`.
pub open spec fn hl_of(r: Registers) -> u16 {
    pair16(r.h, r.l)
}

impl Registers {
    /// The power-on register values.
    pub fn load_defaults() -> (r: Registers)
        ensures
            r == (Registers {
                a: 0x01,
                f: 0xB0,
                b: 0x00,
                c: 0x13,
                d: 0x00,
                e: 0xD8,
                h: 0x01,
                l: 0x4D,
                sp: 0xFFFE,
                pc: 0x0100,
            }),
    {
        Registers {
            a: 0x01,
            f: 0xB0,
            b: 0x00,
            c: 0x13,
            d: 0x00,
            e: 0xD8,
            h: 0x01,
            l: 0x4D,
            sp: 0xFFFE,
            pc: 0x0100,
        }
    }

    /// Read the AF pair, A as the high byte.
    pub fn get_af(&self) -> (r: u16)
        ensures
            r == af_of(*self),
    {
        (self.a as u16) * 256 + (self.f as u16)
    }

    /// Write the AF pair; the low nibble of F reads back as zero.
    pub fn set_af(&mut self, af: u16)
        ensures
            *final(self) == with_af(*old(self), af),
    {
        self.a = (af / 256) as u8;
        self.f = ((af % 256) / 16 * 16) as u8;
    }

    /// Read the BC pair.
    pub fn get_bc(&self) -> (r: u16)
        ensures
            r == bc_of(*self),
    {
        (self.b as u16) * 256 + (self.c as u16)
    }

    /// Write the BC pair.
    pub fn set_bc(&mut self, bc: u16)
        ensures
            *final(self) == with_bc(*old(self), bc),
    {
        self.b = (bc / 256) as u8;
        self.c = (bc % 256) as u8;
    }

    /// Read the DE pair.
    pub fn get_de(&self) -> (r: u16)
        ensures
            r == de_of(*self),
    {
        (self.d as u16) * 256 + (self.e as u16)
    }

    /// Write the DE pair.
    pub fn set_de(&mut self, de: u16)
        ensures
            *final(self) == with_de(*old(self), de),
    {
        self.d = (de / 256) as u8;
        self.e = (de % 256) as u8;
    }

    /// Read the HL pair.
    pub fn get_hl(&self) -> (r: u16)
        ensures
            r == hl_of(*self),
    {
        (self.h as u16) * 256 + (self.l as u16)
    }

    /// Write the HL pair.
    pub fn set_hl(&mut self, hl: u16)
        ensures
            *final(self) == with_hl(*old(self), hl),
    {
        self.h = (hl / 256) as u8;
        self.l = (hl % 256) as u8;
    }

    /// Write all four flags at once; the low nibble of F is cleared.
    pub fn set_flags(&mut self, z: bool, n: bool, h: bool, c: bool)
        ensures
            *final(self) == with_flags(*old(self), z, n, h, c),
    {
        self.f = (if z {
            0x80u8
        } else {
            0u8
        }) + (if n {
            0x40u8
        } else {
            0u8
        }) + (if h {
            0x20u8
        } else {
            0u8
        }) + (if c {
            0x10u8
        } else {
            0u8
        });
    }

    /// Read the zero flag.
    pub fn get_z(&self) -> (r: bool)
        ensures
            r == flag_z(self.f),
    {
        self.f / 0x80 % 2 == 1
    }

    /// Write the zero flag, keeping N, H and C; the low nibble of F is
    /// cleared.
    pub fn set_z(&mut self, z: bool)
        ensures
            *final(self) == with_flags(
                *old(self),
                z,
                flag_n(old(self).f),
                flag_h(old(self).f),
                flag_c(old(self).f),
            ),
    {
        let n = self.get_n();
        let h = self.get_h();
        let c = self.get_c();
        self.set_flags(z, n, h, c);
    }

    /// Read the subtraction flag.
    pub fn get_n(&self) -> (r: bool)
        ensures
            r == flag_n(self.f),
    {
        self.f / 0x40 % 2 == 1
    }

    /// Write the subtraction flag, keeping Z, H and C; the low nibble of F is
    /// cleared.
    pub fn set_n(&mut self, n: bool)
        ensures
            *final(self) == with_flags(
                *old(self),
                flag_z(old(self).f),
                n,
                flag_h(old(self).f),
                flag_c(old(self).f),
            ),
    {
        let z = self.get_z();
        let h = self.get_h();
        let c = self.get_c();
        self.set_flags(z, n, h, c);
    }

    /// Read the half-carry flag.
    pub fn get_h(&self) -> (r: bool)
        ensures
            r == flag_h(self.f),
    {
        self.f / 0x20 % 2 == 1
    }

    /// Write the half-carry flag, keeping Z, N and C; the low nibble of F is
    /// cleared.
    pub fn set_h(&mut self, h: bool)
        ensures
            *final(self) == with_flags(
                *old(self),
                flag_z(old(self).f),
                flag_n(old(self).f),
                h,
                flag_c(old(self).f),
            ),
    {
        let z = self.get_z();
        let n = self.get_n();
        let c = self.get_c();
        self.set_flags(z, n, h, c);
    }

    /// Read the carry flag.
    pub fn get_c(&self) -> (r: bool)
        ensures
            r == flag_c(self.f),
    {
        self.f / 0x10 % 2 == 1
    }

    /// Write the carry flag, keeping Z, N and H; the low nibble of F is
    /// cleared.
    pub fn set_c(&mut self, c: bool)
        ensures
            *final(self) == with_flags(
                *old(self),
                flag_z(old(self).f),
                flag_n(old(self).f),
                flag_h(old(self).f),
                c,
            ),
    {
        let z = self.get_z();
        let n = self.get_n();
        let h = self.get_h();
        self.set_flags(z, n, h, c);
    }
}

/// Packing four flags into F and reading them back is lossless, and the low
/// nibble of the packed byte is zero.
pub proof fn lemma_flags_roundtrip(z: bool, n: bool, h: bool, c: bool)
    ensures
        flag_z(flags_value(z, n, h, c)) == z,
        flag_n(flags_value(z, n, h, c)) == n,
        flag_h(flags_value(z, n, h, c)) == h,
        flag_c(flags_value(z, n, h, c)) == c,
        flags_value(z, n, h, c) % 16 == 0,
{
}

/// A 16-bit pair value decomposes back into the bytes it was built from.
pub proof fn lemma_pair16_bytes(hi: u8, lo: u8)
    ensures
        hi8(pair16(hi, lo)) == hi,
        lo8(pair16(hi, lo)) == lo,
{
    lemma_fundamental_div_mod_converse_div(hi * 256 + lo, 256, hi as int, lo as int);
    vstd::arithmetic::div_mod::lemma_fundamental_div_mod_converse_mod(
        hi * 256 + lo,
        256,
        hi as int,
        lo as int,
    );
}

/// Writing a 16-bit value to BC and reading the pair back returns the value
/// unchanged; likewise for DE and HL, whose setters share this definition.
pub proof fn lemma_pair_roundtrip(r: Registers, v: u16)
    ensures
        bc_of(with_bc(r, v)) == v,
        de_of(with_de(r, v)) == v,
        hl_of(with_hl(r, v)) == v,
{
    lemma_fundamental_div_mod(v as int, 256);
}

/// Writing a 16-bit value to AF and reading the pair back returns the value
/// with the low nibble masked to zero, since only Z, N, H, C live in F.
pub proof fn lemma_af_roundtrip(r: Registers, v: u16)
    ensures
        af_of(with_af(r, v)) == v & 0xFFF0,
{
    let q = v as int / 256;
    let rem = v as int % 256;
    lemma_fundamental_div_mod(v as int, 256);
    lemma_fundamental_div_mod(rem, 16);
    assert(v as int == 16 * (16 * q + rem / 16) + rem % 16);
    lemma_fundamental_div_mod_converse_div(v as int, 16, 16 * q + rem / 16, rem % 16);
    assert(af_of(with_af(r, v)) == v as int / 16 * 16);
    assert(v & 0xFFF0 == v / 16 * 16) by (bit_vector);
}

} // verus!
