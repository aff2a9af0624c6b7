//! The SM83 register file: eight 8-bit registers with paired 16-bit views,
//! a stack pointer and a program counter.

use vstd::prelude::*;

verus! {

/// A 16-bit value split into its high and low bytes, high byte first.
pub open spec fn combine16(hi: u8, lo: u8) -> u16 {
    (hi * 256 + lo) as u16
}

/// The high byte of a 16-bit value.
pub open spec fn high_byte(v: u16) -> u8 {
    (v / 256) as u8
}

/// The low byte of a 16-bit value.
pub open spec fn low_byte(v: u16) -> u8 {
    (v % 256) as u8
}

/// A flag byte with its low nibble forced to zero, as the F register
/// stores it.
pub open spec fn mask_flag_byte(v: u8) -> u8 {
    (v / 16 * 16) as u8
}

/// The register file: A, B, C, D, E, F, H, L plus SP and PC.
///
/// The flag register F only ever holds values whose low nibble is zero;
/// every writer goes through [`mask_flag_byte`].
#[derive(Clone, Copy, Debug, PartialEq, Eq, Structural)]
pub struct CPURegisters {
    pub a: u8,
    pub b: u8,
    pub c: u8,
    pub d: u8,
    pub e: u8,
    pub f: u8,
    pub h: u8,
    pub l: u8,
    pub sp: u16,
    pub pc: u16,
}

impl CPURegisters {
    /// The invariant of the register file: the four low bits of F are zero.
    pub open spec fn wf(self) -> bool {
        self.f % 16 == 0
    }

    /// A register file with every register zeroed.
    pub fn new() -> (r: Self)
        ensures
            r.a == 0 && r.b == 0 && r.c == 0 && r.d == 0 && r.e == 0,
            r.f == 0 && r.h == 0 && r.l == 0 && r.sp == 0 && r.pc == 0,
            r.wf(),
    {
        CPURegisters { a: 0, b: 0, c: 0, d: 0, e: 0, f: 0, h: 0, l: 0, sp: 0, pc: 0 }
    }

    /// The AF pair read as one 16-bit value, A in the high byte.
    pub fn get_af(&self) -> (r: u16)
        ensures
            r == combine16(self.a, self.f),
    {
        self.a as u16 * 256 + self.f as u16
    }

    /// Writes the AF pair; the low nibble of the value is discarded because
    /// F cannot store it.
    pub fn set_af(&mut self, value: u16)
        ensures
            final(self).a == high_byte(value),
            final(self).f == mask_flag_byte(low_byte(value)),
            *final(self) == (CPURegisters {
                a: high_byte(value),
                f: mask_flag_byte(low_byte(value)),
                ..*old(self)
            }),
            final(self).wf(),
    {
        self.a = (value / 256) as u8;
        self.f = (value % 256 / 16 * 16) as u8;
    }

    /// The BC pair read as one 16-bit value, B in the high byte.
    pub fn get_bc(&self) -> (r: u16)
        ensures
            r == combine16(self.b, self.c),
    {
        self.b as u16 * 256 + self.c as u16
    }

    /// Writes the BC pair.
    pub fn set_bc(&mut self, value: u16)
        ensures
            *final(self) == (CPURegisters {
                b: high_byte(value),
                c: low_byte(value),
                ..*old(self)
            }),
    {
        self.b = (value / 256) as u8;
        self.c = (value % 256) as u8;
    }

    /// The DE pair read as one 16-bit value, D in the high byte.
    pub fn get_de(&self) -> (r: u16)
        ensures
            r == combine16(self.d, self.e),
    {
        self.d as u16 * 256 + self.e as u16
    }

    /// Writes the DE pair.
    pub fn set_de(&mut self, value: u16)
        ensures
            *final(self) == (CPURegisters {
                d: high_byte(value),
                e: low_byte(value),
                ..*old(self)
            }),
    {
        self.d = (value / 256) as u8;
        self.e = (value % 256) as u8;
    }

    /// The HL pair read as one 16-bit value, H in the high byte.
    pub fn get_hl(&self) -> (r: u16)
        ensures
            r == combine16(self.h, self.l),
    {
        self.h as u16 * 256 + self.l as u16
    }

    /// Writes the HL pair.
    pub fn set_hl(&mut self, value: u16)
        ensures
            *final(self) == (CPURegisters {
                h: high_byte(value),
                l: low_byte(value),
                ..*old(self)
            }),
    {
        self.h = (value / 256) as u8;
        self.l = (value % 256) as u8;
    }
}

impl Default for CPURegisters {
    /// Same as [`CPURegisters::new`]: every register starts at zero.
    fn default() -> (r: Self)
        ensures
            r == (CPURegisters { a: 0, b: 0, c: 0, d: 0, e: 0, f: 0, h: 0, l: 0, sp: 0, pc: 0 }),
    {
        CPURegisters::new()
    }
}

/// Splits a 16-bit value into its high and low bytes, high byte first.
pub fn convert_u16_to_two_u8s(value: u16) -> (r: (u8, u8))
    ensures
        r.0 == high_byte(value),
        r.1 == low_byte(value),
{
    ((value / 256) as u8, (value % 256) as u8)
}

/// Joins two bytes into a 16-bit value, first byte high.
pub fn convert_two_u8s_to_u16(first: u8, second: u8) -> (r: u16)
    ensures
        r == combine16(first, second),
{
    first as u16 * 256 + second as u16
}

/// Pair round-trip: writing a 16-bit value to a register pair and reading
/// the pair back yields the value unchanged — except through AF, where the
/// low nibble is forced to zero, so the read yields the value with its low
/// four bits cleared.
pub proof fn lemma_pair_round_trip(v: u16)
    ensures
        combine16(high_byte(v), low_byte(v)) == v,
        combine16(high_byte(v), mask_flag_byte(low_byte(v))) == v / 16 * 16,
{
    assert(v / 256 * 256 + v % 256 == v) by (nonlinear_arith);
    assert(v / 256 * 256 + v % 256 / 16 * 16 == v / 16 * 16) by (nonlinear_arith);
}

} // verus!
