//! Bit-exact codecs for the six RV32I instruction-word layouts (R, I, S, SB,
//! U, UJ): packing opcode, register and immediate fields into a 32-bit word
//! and extracting them again, with sign extension and the scattered bit
//! placement of branch and jump offsets.

use vstd::prelude::*;

verus! {

// ---------------------------------------------------------------------------
// Shared field extraction and insertion.
//
// Every format places opcode at bits 6..0, rd at 11..7, funct3 at 14..12,
// rs1 at 19..15, rs2 at 24..20 and funct7 at 31..25.
// ---------------------------------------------------------------------------

pub open spec fn spec_get_opcode(w: u32) -> u8 {
    (w & 0x7f) as u8
}

pub open spec fn spec_set_opcode(opcode: u8) -> u32 {
    (opcode as u32) & 0x7f
}

pub open spec fn spec_get_rd(w: u32) -> u8 {
    ((w & 0xf80) >> 7) as u8
}

pub open spec fn spec_set_rd(rd: u8) -> u32 {
    ((rd as u32) << 7) & 0xf80
}

pub open spec fn spec_get_rs1(w: u32) -> u8 {
    ((w & 0xf8000) >> 15) as u8
}

pub open spec fn spec_set_rs1(rs1: u8) -> u32 {
    ((rs1 as u32) << 15) & 0xf8000
}

pub open spec fn spec_get_rs2(w: u32) -> u8 {
    ((w & 0x1f00000) >> 20) as u8
}

pub open spec fn spec_set_rs2(rs2: u8) -> u32 {
    ((rs2 as u32) << 20) & 0x1f00000
}

pub open spec fn spec_get_funct3(w: u32) -> u8 {
    ((w & 0x7000) >> 12) as u8
}

pub open spec fn spec_set_funct3(funct3: u8) -> u32 {
    ((funct3 as u32) << 12) & 0x7000
}

pub open spec fn spec_get_funct7(w: u32) -> u8 {
    ((w & 0xfe000000) >> 25) as u8
}

pub open spec fn spec_set_funct7(funct7: u8) -> u32 {
    ((funct7 as u32) << 25) & 0xfe000000
}

pub fn get_opcode(instruction: u32) -> (r: u8)
    ensures
        r == spec_get_opcode(instruction),
        r < 0x80,
{
    proof {
        assert(instruction & 0x7f < 0x80) by (bit_vector);
    }
    (instruction & 0x7f) as u8
}

pub fn set_opcode(opcode: u8) -> (r: u32)
    ensures
        r == spec_set_opcode(opcode),
{
    (opcode as u32) & 0x7f
}

pub fn get_rd(instruction: u32) -> (r: u8)
    ensures
        r == spec_get_rd(instruction),
        r < 32,
{
    proof {
        assert((instruction & 0xf80) >> 7 < 32) by (bit_vector);
    }
    ((instruction & 0xf80) >> 7) as u8
}

pub fn set_rd(rd: u8) -> (r: u32)
    ensures
        r == spec_set_rd(rd),
{
    ((rd as u32) << 7) & 0xf80
}

pub fn get_rs1(instruction: u32) -> (r: u8)
    ensures
        r == spec_get_rs1(instruction),
        r < 32,
{
    proof {
        assert((instruction & 0xf8000) >> 15 < 32) by (bit_vector);
    }
    ((instruction & 0xf8000) >> 15) as u8
}

pub fn set_rs1(rs1: u8) -> (r: u32)
    ensures
        r == spec_set_rs1(rs1),
{
    ((rs1 as u32) << 15) & 0xf8000
}

pub fn get_rs2(instruction: u32) -> (r: u8)
    ensures
        r == spec_get_rs2(instruction),
        r < 32,
{
    proof {
        assert((instruction & 0x1f00000) >> 20 < 32) by (bit_vector);
    }
    ((instruction & 0x1f00000) >> 20) as u8
}

pub fn set_rs2(rs2: u8) -> (r: u32)
    ensures
        r == spec_set_rs2(rs2),
{
    ((rs2 as u32) << 20) & 0x1f00000
}

pub fn get_funct3(instruction: u32) -> (r: u8)
    ensures
        r == spec_get_funct3(instruction),
        r < 8,
{
    proof {
        assert((instruction & 0x7000) >> 12 < 8) by (bit_vector);
    }
    ((instruction & 0x7000) >> 12) as u8
}

pub fn set_funct3(funct3: u8) -> (r: u32)
    ensures
        r == spec_set_funct3(funct3),
{
    ((funct3 as u32) << 12) & 0x7000
}

pub fn get_funct7(instruction: u32) -> (r: u8)
    ensures
        r == spec_get_funct7(instruction),
        r < 0x80,
{
    proof {
        assert((instruction & 0xfe000000) >> 25 < 0x80) by (bit_vector);
    }
    ((instruction & 0xfe000000) >> 25) as u8
}

pub fn set_funct7(funct7: u8) -> (r: u32)
    ensures
        r == spec_set_funct7(funct7),
{
    ((funct7 as u32) << 25) & 0xfe000000
}

// ---------------------------------------------------------------------------
// Sign extension of the recombined immediate fields.
// ---------------------------------------------------------------------------

/// Sign-extends a 12-bit field (I and S formats).
pub open spec fn spec_sext12(f: u32) -> i32 {
    if f & 0x800 != 0 {
        (f | 0xfffff000u32) as i32
    } else {
        f as i32
    }
}

/// Sign-extends a 13-bit field (SB format, implicit zero low bit).
pub open spec fn spec_sext13(f: u32) -> i32 {
    if f & 0x1000 != 0 {
        (f | 0xffffe000u32) as i32
    } else {
        f as i32
    }
}

/// Sign-extends a 21-bit field (UJ format, implicit zero low bit).
pub open spec fn spec_sext21(f: u32) -> i32 {
    if f & 0x100000 != 0 {
        (f | 0xffe00000u32) as i32
    } else {
        f as i32
    }
}

// ---------------------------------------------------------------------------
// Per-format recombined immediate fields, as unsigned bit patterns.
// ---------------------------------------------------------------------------

/// I format: the immediate occupies bits 31..20.
pub open spec fn spec_i_field(w: u32) -> u32 {
    w >> 20
}

/// S format: immediate bits 11..5 sit at 31..25, bits 4..0 at 11..7.
pub open spec fn spec_s_field(w: u32) -> u32 {
    (((w >> 25) & 0x7f) << 5) | ((w >> 7) & 0x1f)
}

/// SB format: sign (bit 12) at 31, bit 11 at 7, bits 10..5 at 30..25,
/// bits 4..1 at 11..8; bit 0 is implicitly zero.
pub open spec fn spec_sb_field(w: u32) -> u32 {
    ((w >> 31) << 12) | (((w >> 7) & 1) << 11) | (((w >> 25) & 0x3f) << 5) | (((w >> 8) & 0xf)
        << 1)
}

/// UJ format: sign (bit 20) at 31, bits 19..12 in place, bit 11 at 20,
/// bits 10..1 at 30..21; bit 0 is implicitly zero.
pub open spec fn spec_uj_field(w: u32) -> u32 {
    ((w >> 31) << 20) | (w & 0xff000) | (((w >> 20) & 1) << 11) | (((w >> 21) & 0x3ff) << 1)
}

// ---------------------------------------------------------------------------
// The six format records.
// ---------------------------------------------------------------------------

#[derive(Clone, Copy, Debug, PartialEq, Eq, Structural)]
#[verifier::ext_equal]
pub struct R {
    pub opcode: u8,
    pub rd: u8,
    pub funct3: u8,
    pub rs1: u8,
    pub rs2: u8,
    pub funct7: u8,
}

#[derive(Clone, Copy, Debug, PartialEq, Eq, Structural)]
#[verifier::ext_equal]
pub struct I {
    pub opcode: u8,
    pub rd: u8,
    pub funct3: u8,
    pub rs1: u8,
    pub immediate: i32,
}

#[derive(Clone, Copy, Debug, PartialEq, Eq, Structural)]
#[verifier::ext_equal]
pub struct S {
    pub opcode: u8,
    pub funct3: u8,
    pub rs1: u8,
    pub rs2: u8,
    pub immediate: i32,
}

#[derive(Clone, Copy, Debug, PartialEq, Eq, Structural)]
#[verifier::ext_equal]
pub struct SB {
    pub opcode: u8,
    pub funct3: u8,
    pub rs1: u8,
    pub rs2: u8,
    pub immediate: i32,
}

#[derive(Clone, Copy, Debug, PartialEq, Eq, Structural)]
#[verifier::ext_equal]
pub struct U {
    pub opcode: u8,
    pub rd: u8,
    pub immediate: i32,
}

#[derive(Clone, Copy, Debug, PartialEq, Eq, Structural)]
#[verifier::ext_equal]
pub struct UJ {
    pub opcode: u8,
    pub rd: u8,
    pub immediate: i32,
}

// ---------------------------------------------------------------------------
// Decode and encode, as spec-level definitions.
// ---------------------------------------------------------------------------

pub open spec fn spec_r_decode(w: u32) -> R {
    R {
        opcode: spec_get_opcode(w),
        rd: spec_get_rd(w),
        funct3: spec_get_funct3(w),
        rs1: spec_get_rs1(w),
        rs2: spec_get_rs2(w),
        funct7: spec_get_funct7(w),
    }
}

pub open spec fn spec_r_encode(rec: R) -> u32 {
    spec_set_opcode(rec.opcode) | spec_set_rd(rec.rd) | spec_set_funct3(rec.funct3) | spec_set_rs1(
        rec.rs1,
    ) | spec_set_rs2(rec.rs2) | spec_set_funct7(rec.funct7)
}

pub open spec fn spec_i_decode(w: u32) -> I {
    I {
        opcode: spec_get_opcode(w),
        rd: spec_get_rd(w),
        funct3: spec_get_funct3(w),
        rs1: spec_get_rs1(w),
        immediate: spec_sext12(spec_i_field(w)),
    }
}

pub open spec fn spec_i_encode(rec: I) -> u32 {
    (((rec.immediate as u32) << 20) & 0xfff00000) | spec_set_opcode(rec.opcode) | spec_set_rd(
        rec.rd,
    ) | spec_set_funct3(rec.funct3) | spec_set_rs1(rec.rs1)
}

pub open spec fn spec_s_decode(w: u32) -> S {
    S {
        opcode: spec_get_opcode(w),
        funct3: spec_get_funct3(w),
        rs1: spec_get_rs1(w),
        rs2: spec_get_rs2(w),
        immediate: spec_sext12(spec_s_field(w)),
    }
}

pub open spec fn spec_s_encode(rec: S) -> u32 {
    (((rec.immediate as u32) & 0x1f) << 7) | ((((rec.immediate as u32) & 0xfe0) >> 5) << 25)
        | spec_set_opcode(rec.opcode) | spec_set_funct3(rec.funct3) | spec_set_rs1(rec.rs1)
        | spec_set_rs2(rec.rs2)
}

pub open spec fn spec_sb_decode(w: u32) -> SB {
    SB {
        opcode: spec_get_opcode(w),
        funct3: spec_get_funct3(w),
        rs1: spec_get_rs1(w),
        rs2: spec_get_rs2(w),
        immediate: spec_sext13(spec_sb_field(w)),
    }
}

pub open spec fn spec_sb_encode(rec: SB) -> u32 {
    ((((rec.immediate as u32) >> 12) & 1) << 31) | ((((rec.immediate as u32) >> 11) & 1) << 7) | (
    (((rec.immediate as u32) >> 5) & 0x3f) << 25) | ((((rec.immediate as u32) >> 1) & 0xf) << 8)
        | spec_set_opcode(rec.opcode) | spec_set_funct3(rec.funct3) | spec_set_rs1(rec.rs1)
        | spec_set_rs2(rec.rs2)
}

pub open spec fn spec_u_decode(w: u32) -> U {
    U { opcode: spec_get_opcode(w), rd: spec_get_rd(w), immediate: (w & 0xfffff000) as i32 }
}

pub open spec fn spec_u_encode(rec: U) -> u32 {
    ((rec.immediate as u32) & 0xfffff000) | spec_set_opcode(rec.opcode) | spec_set_rd(rec.rd)
}

pub open spec fn spec_uj_decode(w: u32) -> UJ {
    UJ { opcode: spec_get_opcode(w), rd: spec_get_rd(w), immediate: spec_sext21(spec_uj_field(w)) }
}

pub open spec fn spec_uj_encode(rec: UJ) -> u32 {
    ((((rec.immediate as u32) >> 20) & 1) << 31) | ((rec.immediate as u32) & 0xff000) | ((((
    rec.immediate as u32) >> 11) & 1) << 20) | ((((rec.immediate as u32) >> 1) & 0x3ff) << 21)
        | spec_set_opcode(rec.opcode) | spec_set_rd(rec.rd)
}

// ---------------------------------------------------------------------------
// Well-formedness: every field within its format's width.
// ---------------------------------------------------------------------------

impl R {
    pub open spec fn wf(self) -> bool {
        self.opcode < 0x80 && self.rd < 32 && self.funct3 < 8 && self.rs1 < 32 && self.rs2 < 32
            && self.funct7 < 0x80
    }
}

impl I {
    pub open spec fn wf(self) -> bool {
        self.opcode < 0x80 && self.rd < 32 && self.funct3 < 8 && self.rs1 < 32 && -2048
            <= self.immediate < 2048
    }
}

impl S {
    pub open spec fn wf(self) -> bool {
        self.opcode < 0x80 && self.funct3 < 8 && self.rs1 < 32 && self.rs2 < 32 && -2048
            <= self.immediate < 2048
    }
}

impl SB {
    pub open spec fn wf(self) -> bool {
        self.opcode < 0x80 && self.funct3 < 8 && self.rs1 < 32 && self.rs2 < 32 && -4096
            <= self.immediate < 4096 && (self.immediate as u32) & 1 == 0
    }
}

impl U {
    pub open spec fn wf(self) -> bool {
        self.opcode < 0x80 && self.rd < 32 && (self.immediate as u32) & 0xfff == 0
    }
}

impl UJ {
    pub open spec fn wf(self) -> bool {
        self.opcode < 0x80 && self.rd < 32 && -1048576 <= self.immediate < 1048576 && (
        self.immediate as u32) & 1 == 0
    }
}

// ---------------------------------------------------------------------------
// Executable decode (`parse`) and encode (`to_raw`) for each format.
// ---------------------------------------------------------------------------

impl R {
    pub fn parse(instruction: u32) -> (r: R)
        ensures
            r == spec_r_decode(instruction),
            r.wf(),
    {
        R {
            opcode: get_opcode(instruction),
            rd: get_rd(instruction),
            funct3: get_funct3(instruction),
            rs1: get_rs1(instruction),
            rs2: get_rs2(instruction),
            funct7: get_funct7(instruction),
        }
    }

    pub fn to_raw(&self) -> (r: u32)
        ensures
            r == spec_r_encode(*self),
    {
        set_opcode(self.opcode) | set_rd(self.rd) | set_funct3(self.funct3) | set_rs1(self.rs1)
            | set_rs2(self.rs2) | set_funct7(self.funct7)
    }
}

impl I {
    pub fn parse(instruction: u32) -> (r: I)
        ensures
            r == spec_i_decode(instruction),
            r.wf(),
    {
        proof {
            assert({
                let f = instruction >> 20;
                let im = if f & 0x800 != 0 {
                    (f | 0xfffff000u32) as i32
                } else {
                    f as i32
                };
                -2048 <= im < 2048
            }) by (bit_vector);
        }
        let field: u32 = instruction >> 20;
        let immediate: i32 = if field & 0x800 != 0 {
            #[verifier::truncate] ((field | 0xfffff000u32) as i32)
        } else {
            #[verifier::truncate] (field as i32)
        };
        I {
            opcode: get_opcode(instruction),
            rd: get_rd(instruction),
            funct3: get_funct3(instruction),
            rs1: get_rs1(instruction),
            immediate,
        }
    }

    pub fn to_raw(&self) -> (r: u32)
        ensures
            r == spec_i_encode(*self),
    {
        ((#[verifier::truncate] (self.immediate as u32)) << 20) & 0xfff00000 | set_opcode(
            self.opcode,
        ) | set_rd(self.rd) | set_funct3(self.funct3) | set_rs1(self.rs1)
    }
}

impl S {
    pub fn parse(instruction: u32) -> (r: S)
        ensures
            r == spec_s_decode(instruction),
            r.wf(),
    {
        proof {
            assert({
                let f = (((instruction >> 25) & 0x7f) << 5) | ((instruction >> 7) & 0x1f);
                let im = if f & 0x800 != 0 {
                    (f | 0xfffff000u32) as i32
                } else {
                    f as i32
                };
                -2048 <= im < 2048
            }) by (bit_vector);
        }
        let field: u32 = (((instruction >> 25) & 0x7f) << 5) | ((instruction >> 7) & 0x1f);
        let immediate: i32 = if field & 0x800 != 0 {
            #[verifier::truncate] ((field | 0xfffff000u32) as i32)
        } else {
            #[verifier::truncate] (field as i32)
        };
        S {
            opcode: get_opcode(instruction),
            funct3: get_funct3(instruction),
            rs1: get_rs1(instruction),
            rs2: get_rs2(instruction),
            immediate,
        }
    }

    pub fn to_raw(&self) -> (r: u32)
        ensures
            r == spec_s_encode(*self),
    {
        let imu: u32 = #[verifier::truncate] (self.immediate as u32);
        ((imu & 0x1f) << 7) | (((imu & 0xfe0) >> 5) << 25) | set_opcode(self.opcode) | set_funct3(
            self.funct3,
        ) | set_rs1(self.rs1) | set_rs2(self.rs2)
    }
}

impl SB {
    pub fn parse(instruction: u32) -> (r: SB)
        ensures
            r == spec_sb_decode(instruction),
            r.wf(),
    {
        proof {
            assert({
                let f = ((instruction >> 31) << 12) | (((instruction >> 7) & 1) << 11) | (((
                instruction >> 25) & 0x3f) << 5) | (((instruction >> 8) & 0xf) << 1);
                let im = if f & 0x1000 != 0 {
                    (f | 0xffffe000u32) as i32
                } else {
                    f as i32
                };
                -4096 <= im < 4096 && (im as u32) & 1 == 0
            }) by (bit_vector);
        }
        let field: u32 = ((instruction >> 31) << 12) | (((instruction >> 7) & 1) << 11) | (((
        instruction >> 25) & 0x3f) << 5) | (((instruction >> 8) & 0xf) << 1);
        let immediate: i32 = if field & 0x1000 != 0 {
            #[verifier::truncate] ((field | 0xffffe000u32) as i32)
        } else {
            #[verifier::truncate] (field as i32)
        };
        SB {
            opcode: get_opcode(instruction),
            funct3: get_funct3(instruction),
            rs1: get_rs1(instruction),
            rs2: get_rs2(instruction),
            immediate,
        }
    }

    pub fn to_raw(&self) -> (r: u32)
        ensures
            r == spec_sb_encode(*self),
    {
        let imu: u32 = #[verifier::truncate] (self.immediate as u32);
        (((imu >> 12) & 1) << 31) | (((imu >> 11) & 1) << 7) | (((imu >> 5) & 0x3f) << 25) | (((imu
            >> 1) & 0xf) << 8) | set_opcode(self.opcode) | set_funct3(self.funct3) | set_rs1(
            self.rs1,
        ) | set_rs2(self.rs2)
    }
}

impl U {
    pub fn parse(instruction: u32) -> (r: U)
        ensures
            r == spec_u_decode(instruction),
            r.wf(),
    {
        proof {
            assert(((instruction & 0xfffff000) as i32) as u32 & 0xfff == 0) by (bit_vector);
        }
        U {
            opcode: get_opcode(instruction),
            rd: get_rd(instruction),
            immediate: #[verifier::truncate] ((instruction & 0xfffff000) as i32),
        }
    }

    pub fn to_raw(&self) -> (r: u32)
        ensures
            r == spec_u_encode(*self),
    {
        (#[verifier::truncate] (self.immediate as u32)) & 0xfffff000 | set_opcode(self.opcode)
            | set_rd(self.rd)
    }
}

impl UJ {
    pub fn parse(instruction: u32) -> (r: UJ)
        ensures
            r == spec_uj_decode(instruction),
            r.wf(),
    {
        proof {
            assert({
                let f = ((instruction >> 31) << 20) | (instruction & 0xff000) | (((instruction
                    >> 20) & 1) << 11) | (((instruction >> 21) & 0x3ff) << 1);
                let im = if f & 0x100000 != 0 {
                    (f | 0xffe00000u32) as i32
                } else {
                    f as i32
                };
                -1048576 <= im < 1048576 && (im as u32) & 1 == 0
            }) by (bit_vector);
        }
        let field: u32 = ((instruction >> 31) << 20) | (instruction & 0xff000) | (((instruction
            >> 20) & 1) << 11) | (((instruction >> 21) & 0x3ff) << 1);
        let immediate: i32 = if field & 0x100000 != 0 {
            #[verifier::truncate] ((field | 0xffe00000u32) as i32)
        } else {
            #[verifier::truncate] (field as i32)
        };
        UJ { opcode: get_opcode(instruction), rd: get_rd(instruction), immediate }
    }

    pub fn to_raw(&self) -> (r: u32)
        ensures
            r == spec_uj_encode(*self),
    {
        let imu: u32 = #[verifier::truncate] (self.immediate as u32);
        (((imu >> 20) & 1) << 31) | (imu & 0xff000) | (((imu >> 11) & 1) << 20) | (((imu >> 1)
            & 0x3ff) << 21) | set_opcode(self.opcode) | set_rd(self.rd)
    }
}

// ---------------------------------------------------------------------------
// Round-trip laws.
//
// For every format, decoding an encoded record reproduces the record whenever
// each field lies within its width, and encoding a decoded word reproduces
// the word; sign extension yields the two's-complement value of the raw
// field, and SB/UJ immediates are always even.
// ---------------------------------------------------------------------------

/// Decoding an encoded R record gives the record back, for in-width fields.
pub proof fn lemma_r_decode_encode(rec: R)
    requires
        rec.wf(),
    ensures
        spec_r_decode(spec_r_encode(rec)) == rec,
{
    let o = rec.opcode;
    let d = rec.rd;
    let f3 = rec.funct3;
    let s1 = rec.rs1;
    let s2 = rec.rs2;
    let f7 = rec.funct7;
    assert({
        let w = ((o as u32) & 0x7f) | (((d as u32) << 7) & 0xf80) | (((f3 as u32) << 12) & 0x7000)
            | (((s1 as u32) << 15) & 0xf8000) | (((s2 as u32) << 20) & 0x1f00000) | (((f7 as u32)
            << 25) & 0xfe000000);
        ((w & 0x7f) as u8) == o && (((w & 0xf80) >> 7) as u8) == d && (((w & 0x7000) >> 12) as u8)
            == f3 && (((w & 0xf8000) >> 15) as u8) == s1 && (((w & 0x1f00000) >> 20) as u8) == s2
            && (((w & 0xfe000000) >> 25) as u8) == f7
    }) by (bit_vector)
        requires
            o < 0x80,
            d < 32,
            f3 < 8,
            s1 < 32,
            s2 < 32,
            f7 < 0x80,
    ;
    assert(spec_r_decode(spec_r_encode(rec)) =~= rec);
}

/// Encoding a decoded word gives the word back: R defines all 32 bits.
pub proof fn lemma_r_encode_decode(w: u32)
    ensures
        spec_r_encode(spec_r_decode(w)) == w,
{
    assert({
        let o = (w & 0x7f) as u8;
        let d = ((w & 0xf80) >> 7) as u8;
        let f3 = ((w & 0x7000) >> 12) as u8;
        let s1 = ((w & 0xf8000) >> 15) as u8;
        let s2 = ((w & 0x1f00000) >> 20) as u8;
        let f7 = ((w & 0xfe000000) >> 25) as u8;
        (((o as u32) & 0x7f) | (((d as u32) << 7) & 0xf80) | (((f3 as u32) << 12) & 0x7000) | (((
        s1 as u32) << 15) & 0xf8000) | (((s2 as u32) << 20) & 0x1f00000) | (((f7 as u32) << 25)
            & 0xfe000000)) == w
    }) by (bit_vector);
}

/// Decoding an encoded I record gives the record back, for in-width fields.
pub proof fn lemma_i_decode_encode(rec: I)
    requires
        rec.wf(),
    ensures
        spec_i_decode(spec_i_encode(rec)) == rec,
{
    let o = rec.opcode;
    let d = rec.rd;
    let f3 = rec.funct3;
    let s1 = rec.rs1;
    let im = rec.immediate;
    assert({
        let w = (((im as u32) << 20) & 0xfff00000) | ((o as u32) & 0x7f) | (((d as u32) << 7)
            & 0xf80) | (((f3 as u32) << 12) & 0x7000) | (((s1 as u32) << 15) & 0xf8000);
        let f = w >> 20;
        ((w & 0x7f) as u8) == o && (((w & 0xf80) >> 7) as u8) == d && (((w & 0x7000) >> 12) as u8)
            == f3 && (((w & 0xf8000) >> 15) as u8) == s1 && (if f & 0x800 != 0 {
            (f | 0xfffff000u32) as i32
        } else {
            f as i32
        }) == im
    }) by (bit_vector)
        requires
            o < 0x80,
            d < 32,
            f3 < 8,
            s1 < 32,
            -2048 <= im < 2048,
    ;
    assert(spec_i_decode(spec_i_encode(rec)) =~= rec);
}

/// Encoding a decoded word gives the word back: I defines all 32 bits.
pub proof fn lemma_i_encode_decode(w: u32)
    ensures
        spec_i_encode(spec_i_decode(w)) == w,
{
    assert({
        let o = (w & 0x7f) as u8;
        let d = ((w & 0xf80) >> 7) as u8;
        let f3 = ((w & 0x7000) >> 12) as u8;
        let s1 = ((w & 0xf8000) >> 15) as u8;
        let f = w >> 20;
        let im = if f & 0x800 != 0 {
            (f | 0xfffff000u32) as i32
        } else {
            f as i32
        };
        ((((im as u32) << 20) & 0xfff00000) | ((o as u32) & 0x7f) | (((d as u32) << 7) & 0xf80) | (
        ((f3 as u32) << 12) & 0x7000) | (((s1 as u32) << 15) & 0xf8000)) == w
    }) by (bit_vector);
}

/// Decoding an encoded S record gives the record back, for in-width fields.
pub proof fn lemma_s_decode_encode(rec: S)
    requires
        rec.wf(),
    ensures
        spec_s_decode(spec_s_encode(rec)) == rec,
{
    let o = rec.opcode;
    let f3 = rec.funct3;
    let s1 = rec.rs1;
    let s2 = rec.rs2;
    let im = rec.immediate;
    assert({
        let w = (((im as u32) & 0x1f) << 7) | ((((im as u32) & 0xfe0) >> 5) << 25) | ((o as u32)
            & 0x7f) | (((f3 as u32) << 12) & 0x7000) | (((s1 as u32) << 15) & 0xf8000) | (((
        s2 as u32) << 20) & 0x1f00000);
        let f = (((w >> 25) & 0x7f) << 5) | ((w >> 7) & 0x1f);
        ((w & 0x7f) as u8) == o && (((w & 0x7000) >> 12) as u8) == f3 && (((w & 0xf8000)
            >> 15) as u8) == s1 && (((w & 0x1f00000) >> 20) as u8) == s2 && (if f & 0x800 != 0 {
            (f | 0xfffff000u32) as i32
        } else {
            f as i32
        }) == im
    }) by (bit_vector)
        requires
            o < 0x80,
            f3 < 8,
            s1 < 32,
            s2 < 32,
            -2048 <= im < 2048,
    ;
    assert(spec_s_decode(spec_s_encode(rec)) =~= rec);
}

/// Encoding a decoded word gives the word back: S defines all 32 bits.
pub proof fn lemma_s_encode_decode(w: u32)
    ensures
        spec_s_encode(spec_s_decode(w)) == w,
{
    assert({
        let o = (w & 0x7f) as u8;
        let f3 = ((w & 0x7000) >> 12) as u8;
        let s1 = ((w & 0xf8000) >> 15) as u8;
        let s2 = ((w & 0x1f00000) >> 20) as u8;
        let f = (((w >> 25) & 0x7f) << 5) | ((w >> 7) & 0x1f);
        let im = if f & 0x800 != 0 {
            (f | 0xfffff000u32) as i32
        } else {
            f as i32
        };
        ((((im as u32) & 0x1f) << 7) | ((((im as u32) & 0xfe0) >> 5) << 25) | ((o as u32) & 0x7f)
            | (((f3 as u32) << 12) & 0x7000) | (((s1 as u32) << 15) & 0xf8000) | (((s2 as u32)
            << 20) & 0x1f00000)) == w
    }) by (bit_vector);
}

/// Decoding an encoded SB record gives the record back, for an even
/// immediate within 13 signed bits and in-width fields.
pub proof fn lemma_sb_decode_encode(rec: SB)
    requires
        rec.wf(),
    ensures
        spec_sb_decode(spec_sb_encode(rec)) == rec,
{
    let o = rec.opcode;
    let f3 = rec.funct3;
    let s1 = rec.rs1;
    let s2 = rec.rs2;
    let im = rec.immediate;
    assert({
        let w = ((((im as u32) >> 12) & 1) << 31) | ((((im as u32) >> 11) & 1) << 7) | ((((
        im as u32) >> 5) & 0x3f) << 25) | ((((im as u32) >> 1) & 0xf) << 8) | ((o as u32) & 0x7f)
            | (((f3 as u32) << 12) & 0x7000) | (((s1 as u32) << 15) & 0xf8000) | (((s2 as u32)
            << 20) & 0x1f00000);
        let f = ((w >> 31) << 12) | (((w >> 7) & 1) << 11) | (((w >> 25) & 0x3f) << 5) | (((w >> 8)
            & 0xf) << 1);
        ((w & 0x7f) as u8) == o && (((w & 0x7000) >> 12) as u8) == f3 && (((w & 0xf8000)
            >> 15) as u8) == s1 && (((w & 0x1f00000) >> 20) as u8) == s2 && (if f & 0x1000 != 0 {
            (f | 0xffffe000u32) as i32
        } else {
            f as i32
        }) == im
    }) by (bit_vector)
        requires
            o < 0x80,
            f3 < 8,
            s1 < 32,
            s2 < 32,
            -4096 <= im < 4096,
            (im as u32) & 1 == 0,
    ;
    assert(spec_sb_decode(spec_sb_encode(rec)) =~= rec);
}

/// Encoding a decoded word gives the word back: SB defines all 32 bits.
pub proof fn lemma_sb_encode_decode(w: u32)
    ensures
        spec_sb_encode(spec_sb_decode(w)) == w,
{
    assert({
        let o = (w & 0x7f) as u8;
        let f3 = ((w & 0x7000) >> 12) as u8;
        let s1 = ((w & 0xf8000) >> 15) as u8;
        let s2 = ((w & 0x1f00000) >> 20) as u8;
        let f = ((w >> 31) << 12) | (((w >> 7) & 1) << 11) | (((w >> 25) & 0x3f) << 5) | (((w >> 8)
            & 0xf) << 1);
        let im = if f & 0x1000 != 0 {
            (f | 0xffffe000u32) as i32
        } else {
            f as i32
        };
        (((((im as u32) >> 12) & 1) << 31) | ((((im as u32) >> 11) & 1) << 7) | ((((im as u32)
            >> 5) & 0x3f) << 25) | ((((im as u32) >> 1) & 0xf) << 8) | ((o as u32) & 0x7f) | (((
        f3 as u32) << 12) & 0x7000) | (((s1 as u32) << 15) & 0xf8000) | (((s2 as u32) << 20)
            & 0x1f00000)) == w
    }) by (bit_vector);
}

/// Decoding an encoded U record gives the record back, for an immediate with
/// a zero low 12 bits and in-width fields.
pub proof fn lemma_u_decode_encode(rec: U)
    requires
        rec.wf(),
    ensures
        spec_u_decode(spec_u_encode(rec)) == rec,
{
    let o = rec.opcode;
    let d = rec.rd;
    let im = rec.immediate;
    assert({
        let w = ((im as u32) & 0xfffff000) | ((o as u32) & 0x7f) | (((d as u32) << 7) & 0xf80);
        ((w & 0x7f) as u8) == o && (((w & 0xf80) >> 7) as u8) == d && ((w & 0xfffff000) as i32)
            == im
    }) by (bit_vector)
        requires
            o < 0x80,
            d < 32,
            (im as u32) & 0xfff == 0,
    ;
    assert(spec_u_decode(spec_u_encode(rec)) =~= rec);
}

/// Encoding a decoded word gives the word back: U defines all 32 bits.
pub proof fn lemma_u_encode_decode(w: u32)
    ensures
        spec_u_encode(spec_u_decode(w)) == w,
{
    assert({
        let o = (w & 0x7f) as u8;
        let d = ((w & 0xf80) >> 7) as u8;
        let im = (w & 0xfffff000) as i32;
        (((im as u32) & 0xfffff000) | ((o as u32) & 0x7f) | (((d as u32) << 7) & 0xf80)) == w
    }) by (bit_vector);
}

/// Decoding an encoded UJ record gives the record back, for an even
/// immediate within 21 signed bits and in-width fields.
pub proof fn lemma_uj_decode_encode(rec: UJ)
    requires
        rec.wf(),
    ensures
        spec_uj_decode(spec_uj_encode(rec)) == rec,
{
    let o = rec.opcode;
    let d = rec.rd;
    let im = rec.immediate;
    assert({
        let w = ((((im as u32) >> 20) & 1) << 31) | ((im as u32) & 0xff000) | ((((im as u32) >> 11)
            & 1) << 20) | ((((im as u32) >> 1) & 0x3ff) << 21) | ((o as u32) & 0x7f) | (((
        d as u32) << 7) & 0xf80);
        let f = ((w >> 31) << 20) | (w & 0xff000) | (((w >> 20) & 1) << 11) | (((w >> 21) & 0x3ff)
            << 1);
        ((w & 0x7f) as u8) == o && (((w & 0xf80) >> 7) as u8) == d && (if f & 0x100000 != 0 {
            (f | 0xffe00000u32) as i32
        } else {
            f as i32
        }) == im
    }) by (bit_vector)
        requires
            o < 0x80,
            d < 32,
            -1048576 <= im < 1048576,
            (im as u32) & 1 == 0,
    ;
    assert(spec_uj_decode(spec_uj_encode(rec)) =~= rec);
}

/// Encoding a decoded word gives the word back: UJ defines all 32 bits.
pub proof fn lemma_uj_encode_decode(w: u32)
    ensures
        spec_uj_encode(spec_uj_decode(w)) == w,
{
    assert({
        let o = (w & 0x7f) as u8;
        let d = ((w & 0xf80) >> 7) as u8;
        let f = ((w >> 31) << 20) | (w & 0xff000) | (((w >> 20) & 1) << 11) | (((w >> 21) & 0x3ff)
            << 1);
        let im = if f & 0x100000 != 0 {
            (f | 0xffe00000u32) as i32
        } else {
            f as i32
        };
        (((((im as u32) >> 20) & 1) << 31) | ((im as u32) & 0xff000) | ((((im as u32) >> 11) & 1)
            << 20) | ((((im as u32) >> 1) & 0x3ff) << 21) | ((o as u32) & 0x7f) | (((d as u32)
            << 7) & 0xf80)) == w
    }) by (bit_vector);
}

/// I-format sign extension: when the top immediate bit (word bit 31) is set,
/// the decoded immediate is negative and equals the raw 12-bit field minus
/// 2^12; re-encoding reproduces the word.
pub proof fn lemma_i_sign_extension(w: u32)
    requires
        w & 0x80000000u32 != 0,
    ensures
        spec_i_decode(w).immediate < 0,
        spec_i_decode(w).immediate == spec_i_field(w) - 4096,
        spec_i_encode(spec_i_decode(w)) == w,
{
    lemma_i_encode_decode(w);
    assert({
        let f = w >> 20;
        let im = if f & 0x800 != 0 {
            (f | 0xfffff000u32) as i32
        } else {
            f as i32
        };
        im < 0 && im == f - 4096
    }) by (bit_vector)
        requires
            w & 0x80000000u32 != 0,
    ;
}

/// S-format sign extension: when word bit 31 is set, the decoded immediate
/// is negative and equals the raw 12-bit field minus 2^12; re-encoding
/// reproduces the word.
pub proof fn lemma_s_sign_extension(w: u32)
    requires
        w & 0x80000000u32 != 0,
    ensures
        spec_s_decode(w).immediate < 0,
        spec_s_decode(w).immediate == spec_s_field(w) - 4096,
        spec_s_encode(spec_s_decode(w)) == w,
{
    lemma_s_encode_decode(w);
    assert({
        let f = (((w >> 25) & 0x7f) << 5) | ((w >> 7) & 0x1f);
        let im = if f & 0x800 != 0 {
            (f | 0xfffff000u32) as i32
        } else {
            f as i32
        };
        im < 0 && im == f - 4096
    }) by (bit_vector)
        requires
            w & 0x80000000u32 != 0,
    ;
}

/// SB-format sign extension: when word bit 31 is set, the decoded immediate
/// is negative and equals the raw 13-bit field minus 2^13; re-encoding
/// reproduces the word.
pub proof fn lemma_sb_sign_extension(w: u32)
    requires
        w & 0x80000000u32 != 0,
    ensures
        spec_sb_decode(w).immediate < 0,
        spec_sb_decode(w).immediate == spec_sb_field(w) - 8192,
        spec_sb_encode(spec_sb_decode(w)) == w,
{
    lemma_sb_encode_decode(w);
    assert({
        let f = ((w >> 31) << 12) | (((w >> 7) & 1) << 11) | (((w >> 25) & 0x3f) << 5) | (((w >> 8)
            & 0xf) << 1);
        let im = if f & 0x1000 != 0 {
            (f | 0xffffe000u32) as i32
        } else {
            f as i32
        };
        im < 0 && im == f - 8192
    }) by (bit_vector)
        requires
            w & 0x80000000u32 != 0,
    ;
}

/// UJ-format sign extension: when word bit 31 is set, the decoded immediate
/// is negative and equals the raw 21-bit field minus 2^21; re-encoding
/// reproduces the word.
pub proof fn lemma_uj_sign_extension(w: u32)
    requires
        w & 0x80000000u32 != 0,
    ensures
        spec_uj_decode(w).immediate < 0,
        spec_uj_decode(w).immediate == spec_uj_field(w) - 2097152,
        spec_uj_encode(spec_uj_decode(w)) == w,
{
    lemma_uj_encode_decode(w);
    assert({
        let f = ((w >> 31) << 20) | (w & 0xff000) | (((w >> 20) & 1) << 11) | (((w >> 21) & 0x3ff)
            << 1);
        let im = if f & 0x100000 != 0 {
            (f | 0xffe00000u32) as i32
        } else {
            f as i32
        };
        im < 0 && im == f - 2097152
    }) by (bit_vector)
        requires
            w & 0x80000000u32 != 0,
    ;
}

/// Every SB-decoded immediate is even: the implicit zero low bit.
pub proof fn lemma_sb_immediate_even(w: u32)
    ensures
        spec_sb_decode(w).immediate % 2 == 0,
{
    assert({
        let f = ((w >> 31) << 12) | (((w >> 7) & 1) << 11) | (((w >> 25) & 0x3f) << 5) | (((w >> 8)
            & 0xf) << 1);
        let im = if f & 0x1000 != 0 {
            (f | 0xffffe000u32) as i32
        } else {
            f as i32
        };
        im % 2 == 0
    }) by (bit_vector);
}

/// Every UJ-decoded immediate is even: the implicit zero low bit.
pub proof fn lemma_uj_immediate_even(w: u32)
    ensures
        spec_uj_decode(w).immediate % 2 == 0,
{
    assert({
        let f = ((w >> 31) << 20) | (w & 0xff000) | (((w >> 20) & 1) << 11) | (((w >> 21) & 0x3ff)
            << 1);
        let im = if f & 0x100000 != 0 {
            (f | 0xffe00000u32) as i32
        } else {
            f as i32
        };
        im % 2 == 0
    }) by (bit_vector);
}

} // verus!

