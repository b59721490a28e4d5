//! The instruction model: the 32 integer registers and the closed set of
//! supported operations, each mapped to a format kind with its fixed
//! opcode/funct3/funct7 constants, and lowered to a raw 32-bit word.

use vstd::prelude::*;

use crate::encoding;

verus! {

#[derive(Clone, Copy, Debug, PartialEq, Eq, Structural)]
pub enum Register {
    X0,
    X1,
    X2,
    X3,
    X4,
    X5,
    X6,
    X7,
    X8,
    X9,
    X10,
    X11,
    X12,
    X13,
    X14,
    X15,
    X16,
    X17,
    X18,
    X19,
    X20,
    X21,
    X22,
    X23,
    X24,
    X25,
    X26,
    X27,
    X28,
    X29,
    X30,
    X31,
}

impl Register {
    /// The canonical id of the register: `Xn` has id `n`.
    pub open spec fn id(self) -> u8 {
        match self {
            Register::X0 => 0,
            Register::X1 => 1,
            Register::X2 => 2,
            Register::X3 => 3,
            Register::X4 => 4,
            Register::X5 => 5,
            Register::X6 => 6,
            Register::X7 => 7,
            Register::X8 => 8,
            Register::X9 => 9,
            Register::X10 => 10,
            Register::X11 => 11,
            Register::X12 => 12,
            Register::X13 => 13,
            Register::X14 => 14,
            Register::X15 => 15,
            Register::X16 => 16,
            Register::X17 => 17,
            Register::X18 => 18,
            Register::X19 => 19,
            Register::X20 => 20,
            Register::X21 => 21,
            Register::X22 => 22,
            Register::X23 => 23,
            Register::X24 => 24,
            Register::X25 => 25,
            Register::X26 => 26,
            Register::X27 => 27,
            Register::X28 => 28,
            Register::X29 => 29,
            Register::X30 => 30,
            Register::X31 => 31,
        }
    }

    pub fn to_num(&self) -> (r: u8)
        ensures
            r == self.id(),
            r < 32,
    {
        match *self {
            Register::X0 => 0,
            Register::X1 => 1,
            Register::X2 => 2,
            Register::X3 => 3,
            Register::X4 => 4,
            Register::X5 => 5,
            Register::X6 => 6,
            Register::X7 => 7,
            Register::X8 => 8,
            Register::X9 => 9,
            Register::X10 => 10,
            Register::X11 => 11,
            Register::X12 => 12,
            Register::X13 => 13,
            Register::X14 => 14,
            Register::X15 => 15,
            Register::X16 => 16,
            Register::X17 => 17,
            Register::X18 => 18,
            Register::X19 => 19,
            Register::X20 => 20,
            Register::X21 => 21,
            Register::X22 => 22,
            Register::X23 => 23,
            Register::X24 => 24,
            Register::X25 => 25,
            Register::X26 => 26,
            Register::X27 => 27,
            Register::X28 => 28,
            Register::X29 => 29,
            Register::X30 => 30,
            Register::X31 => 31,
        }
    }
}

/// Distinct registers have distinct ids, so id() is a bijection between the
/// 32 registers and the ids 0..31.
pub proof fn lemma_register_id_injective(a: Register, b: Register)
    ensures
        a.id() == b.id() ==> a == b,
{
}

/// The closed set of supported operations. The immediate-form operations
/// carry (destination, source, immediate); `Add` carries (destination,
/// source1, source2).
#[derive(Clone, Copy, Debug, PartialEq, Eq, Structural)]
pub enum Instruction {
    Addi(Register, Register, usize),
    Slti(Register, Register, usize),
    Sltiu(Register, Register, usize),
    Andi(Register, Register, usize),
    Ori(Register, Register, usize),
    Xori(Register, Register, usize),
    Slli(Register, Register, usize),
    Srli(Register, Register, usize),
    Srai(Register, Register, usize),
    Nop,
    Add(Register, Register, Register),
}

/// The I-format record for a register-immediate operation: opcode 0010011,
/// with the operation's funct3 and the low 12 bits of the immediate.
pub open spec fn spec_imm_record(funct3: u8, dest: Register, src: Register, imm: usize)
    -> encoding::I {
    encoding::I {
        opcode: 0x13,
        rd: dest.id(),
        funct3: funct3,
        rs1: src.id(),
        immediate: imm as i32,
    }
}

/// The I-format record for a shift-immediate operation: the low 5 bits of
/// the immediate are the shift amount and bits 11..5 hold the operation's
/// funct7 constant (0100000 for the arithmetic right shift, else 0000000).
pub open spec fn spec_shift_record(funct3: u8, funct7: u8, dest: Register, src: Register,
    imm: usize) -> encoding::I {
    encoding::I {
        opcode: 0x13,
        rd: dest.id(),
        funct3: funct3,
        rs1: src.id(),
        immediate: (((funct7 as u32) << 5) | ((imm as u32) & 0x1f)) as i32,
    }
}

/// The raw word an instruction lowers to, through its format's codec.
pub open spec fn spec_instruction_word(i: Instruction) -> u32 {
    match i {
        Instruction::Addi(dest, src, imm) => encoding::spec_i_encode(
            spec_imm_record(0b000, dest, src, imm),
        ),
        Instruction::Slti(dest, src, imm) => encoding::spec_i_encode(
            spec_imm_record(0b010, dest, src, imm),
        ),
        Instruction::Sltiu(dest, src, imm) => encoding::spec_i_encode(
            spec_imm_record(0b011, dest, src, imm),
        ),
        Instruction::Andi(dest, src, imm) => encoding::spec_i_encode(
            spec_imm_record(0b111, dest, src, imm),
        ),
        Instruction::Ori(dest, src, imm) => encoding::spec_i_encode(
            spec_imm_record(0b110, dest, src, imm),
        ),
        Instruction::Xori(dest, src, imm) => encoding::spec_i_encode(
            spec_imm_record(0b100, dest, src, imm),
        ),
        Instruction::Slli(dest, src, imm) => encoding::spec_i_encode(
            spec_shift_record(0b001, 0b0000000, dest, src, imm),
        ),
        Instruction::Srli(dest, src, imm) => encoding::spec_i_encode(
            spec_shift_record(0b101, 0b0000000, dest, src, imm),
        ),
        Instruction::Srai(dest, src, imm) => encoding::spec_i_encode(
            spec_shift_record(0b101, 0b0100000, dest, src, imm),
        ),
        Instruction::Nop => encoding::spec_i_encode(
            encoding::I { opcode: 0x13, rd: 0, funct3: 0b000, rs1: 0, immediate: 0 },
        ),
        Instruction::Add(dest, src1, src2) => encoding::spec_r_encode(
            encoding::R {
                opcode: 0x33,
                rd: dest.id(),
                funct3: 0b000,
                rs1: src1.id(),
                rs2: src2.id(),
                funct7: 0b0000000,
            },
        ),
    }
}

impl Instruction {
    pub fn to_raw(&self) -> (r: u32)
        ensures
            r == spec_instruction_word(*self),
    {
        match *self {
            Instruction::Addi(dest, src, imm) => imm_to_raw(0b000, dest, src, imm),
            Instruction::Slti(dest, src, imm) => imm_to_raw(0b010, dest, src, imm),
            Instruction::Sltiu(dest, src, imm) => imm_to_raw(0b011, dest, src, imm),
            Instruction::Andi(dest, src, imm) => imm_to_raw(0b111, dest, src, imm),
            Instruction::Ori(dest, src, imm) => imm_to_raw(0b110, dest, src, imm),
            Instruction::Xori(dest, src, imm) => imm_to_raw(0b100, dest, src, imm),
            Instruction::Slli(dest, src, imm) => shift_to_raw(0b001, 0b0000000, dest, src, imm),
            Instruction::Srli(dest, src, imm) => shift_to_raw(0b101, 0b0000000, dest, src, imm),
            Instruction::Srai(dest, src, imm) => shift_to_raw(0b101, 0b0100000, dest, src, imm),
            Instruction::Nop => {
                let rec = encoding::I { opcode: 0x13, rd: 0, funct3: 0b000, rs1: 0, immediate: 0 };
                rec.to_raw()
            },
            Instruction::Add(dest, src1, src2) => {
                let rec = encoding::R {
                    opcode: 0x33,
                    rd: dest.to_num(),
                    funct3: 0b000,
                    rs1: src1.to_num(),
                    rs2: src2.to_num(),
                    funct7: 0b0000000,
                };
                rec.to_raw()
            },
        }
    }
}

fn imm_to_raw(funct3: u8, dest: Register, src: Register, imm: usize) -> (r: u32)
    ensures
        r == encoding::spec_i_encode(spec_imm_record(funct3, dest, src, imm)),
{
    let rec = encoding::I {
        opcode: 0x13,
        rd: dest.to_num(),
        funct3: funct3,
        rs1: src.to_num(),
        immediate: #[verifier::truncate] (imm as i32),
    };
    rec.to_raw()
}

fn shift_to_raw(funct3: u8, funct7: u8, dest: Register, src: Register, imm: usize) -> (r: u32)
    ensures
        r == encoding::spec_i_encode(spec_shift_record(funct3, funct7, dest, src, imm)),
{
    let rec = encoding::I {
        opcode: 0x13,
        rd: dest.to_num(),
        funct3: funct3,
        rs1: src.to_num(),
        immediate: #[verifier::truncate] ((((funct7 as u32) << 5) | ((#[verifier::truncate] (
        imm as u32)) & 0x1f)) as i32),
    };
    rec.to_raw()
}

} // verus!
