use rvasm::ast::{Instruction, Register};
use rvasm::emit::assemble;
use rvasm::encoding::{I, R, S, SB, U, UJ};
use rvasm::encoding::{
    get_funct3, get_funct7, get_opcode, get_rd, get_rs1, get_rs2, set_funct3, set_funct7,
    set_opcode, set_rd, set_rs1, set_rs2,
};
use rvasm::parser::{parse_instruction, parse_number, parse_program, parse_register};

#[test]
fn field_getters_mask_and_shift() {
    let w: u32 = 0xFFFF_FFFF;
    assert_eq!(get_opcode(w), 0x7F);
    assert_eq!(get_rd(w), 31);
    assert_eq!(get_funct3(w), 7);
    assert_eq!(get_rs1(w), 31);
    assert_eq!(get_rs2(w), 31);
    assert_eq!(get_funct7(w), 0x7F);
    let w = 0x00C5_8533u32;
    assert_eq!(get_opcode(w), 0x33);
    assert_eq!(get_rd(w), 10);
    assert_eq!(get_funct3(w), 0);
    assert_eq!(get_rs1(w), 11);
    assert_eq!(get_rs2(w), 12);
    assert_eq!(get_funct7(w), 0);
}

#[test]
fn field_setters_place_bits() {
    assert_eq!(set_opcode(0x13), 0x13);
    assert_eq!(set_rd(1), 0x80);
    assert_eq!(set_funct3(7), 0x7000);
    assert_eq!(set_rs1(11), 0x58000);
    assert_eq!(set_rs2(12), 0xC0_0000);
    assert_eq!(set_funct7(0x20), 0x4000_0000);
    // Out-of-width inputs are masked to the field.
    assert_eq!(set_opcode(0xFF), 0x7F);
    assert_eq!(set_rd(0xFF), 0xF80);
}

#[test]
fn r_round_trip() {
    let rec = R { opcode: 0x33, rd: 10, funct3: 0, rs1: 11, rs2: 12, funct7: 0 };
    assert_eq!(R::parse(rec.to_raw()), rec);
    let w: u32 = 0x00C5_8533;
    assert_eq!(R::parse(w).to_raw(), w);
    assert_eq!(R::parse(0xFFFF_FFFF).to_raw(), 0xFFFF_FFFF);
}

#[test]
fn i_round_trip() {
    let rec = I { opcode: 0x13, rd: 1, funct3: 0, rs1: 0, immediate: 5 };
    assert_eq!(I::parse(rec.to_raw()), rec);
    let neg = I { opcode: 0x13, rd: 1, funct3: 0, rs1: 0, immediate: -2048 };
    assert_eq!(I::parse(neg.to_raw()), neg);
    let w: u32 = 0x0050_0093;
    assert_eq!(I::parse(w).to_raw(), w);
    assert_eq!(I::parse(0xFFFF_FFFF).to_raw(), 0xFFFF_FFFF);
}

#[test]
fn s_round_trip() {
    let rec = S { opcode: 0x23, funct3: 2, rs1: 1, rs2: 2, immediate: -7 };
    assert_eq!(S::parse(rec.to_raw()), rec);
    let w: u32 = 0xFE20_A8A3;
    assert_eq!(S::parse(w).to_raw(), w);
}

#[test]
fn sb_round_trip() {
    let rec = SB { opcode: 0x63, funct3: 1, rs1: 3, rs2: 4, immediate: -4096 };
    assert_eq!(SB::parse(rec.to_raw()), rec);
    let even = SB { opcode: 0x63, funct3: 0, rs1: 0, rs2: 0, immediate: 2046 };
    assert_eq!(SB::parse(even.to_raw()), even);
    let w: u32 = 0xFE31_88E3;
    assert_eq!(SB::parse(w).to_raw(), w);
    assert_eq!(SB::parse(0xFFFF_FFFF).to_raw(), 0xFFFF_FFFF);
}

#[test]
fn u_round_trip() {
    let rec = U { opcode: 0x37, rd: 5, immediate: 0x12345 << 12 };
    assert_eq!(U::parse(rec.to_raw()), rec);
    let w: u32 = 0x1234_52B7;
    assert_eq!(U::parse(w).to_raw(), w);
    assert_eq!(U::parse(0xFFFF_FFFF).to_raw(), 0xFFFF_FFFF);
}

#[test]
fn uj_round_trip() {
    let rec = UJ { opcode: 0x6F, rd: 1, immediate: -1048576 };
    assert_eq!(UJ::parse(rec.to_raw()), rec);
    let small = UJ { opcode: 0x6F, rd: 1, immediate: 2 };
    assert_eq!(UJ::parse(small.to_raw()), small);
    let w: u32 = 0xFFFF_F06F;
    assert_eq!(UJ::parse(w).to_raw(), w);
    assert_eq!(UJ::parse(0xFFFF_FFFF).to_raw(), 0xFFFF_FFFF);
}

#[test]
fn i_sign_extension() {
    // Immediate field 0xFFF, top bit set: two's complement -1.
    let w: u32 = 0xFFF0_0093;
    let rec = I::parse(w);
    assert_eq!(rec.immediate, -1);
    assert_eq!(rec.to_raw(), w);
    // Field 0x800 is the most negative 12-bit value.
    let w: u32 = 0x8000_0093;
    let rec = I::parse(w);
    assert_eq!(rec.immediate, -2048);
    assert_eq!(rec.to_raw(), w);
}

#[test]
fn s_sign_extension() {
    // All immediate bits set: -1.
    let w: u32 = 0xFE00_0F80 | 0x23;
    let rec = S::parse(w);
    assert_eq!(rec.immediate, -1);
    assert_eq!(rec.to_raw(), w);
}

#[test]
fn sb_sign_extension_and_even() {
    // All SB immediate bits set: -2 (bit 0 is implicitly zero).
    let w: u32 = 0x8000_0000 | 0x7E00_0000 | 0xF00 | 0x80 | 0x63;
    let rec = SB::parse(w);
    assert_eq!(rec.immediate, -2);
    assert_eq!(rec.immediate % 2, 0);
    assert_eq!(rec.to_raw(), w);
    assert_eq!(SB::parse(0xFFFF_FFFF).immediate % 2, 0);
    assert_eq!(SB::parse(0x0000_0F80).immediate % 2, 0);
}

#[test]
fn uj_sign_extension_and_even() {
    // All UJ immediate bits set: -2 (bit 0 is implicitly zero).
    let w: u32 = 0x8000_0000 | 0x7FE0_0000 | 0x0010_0000 | 0xFF000 | 0x6F;
    let rec = UJ::parse(w);
    assert_eq!(rec.immediate, -2);
    assert_eq!(rec.immediate % 2, 0);
    assert_eq!(rec.to_raw(), w);
    assert_eq!(UJ::parse(0xFFFF_FFFF).immediate % 2, 0);
    assert_eq!(UJ::parse(0x7FFF_FFFF).immediate % 2, 0);
}

#[test]
fn register_aliases() {
    // "x2" and "sp" are the same register and encode identically.
    let canonical = parse_register(b"x2").unwrap();
    let alias = parse_register(b"sp").unwrap();
    assert_eq!(canonical, alias);
    assert_eq!(canonical, Register::X2);
    assert_eq!(canonical.to_num(), alias.to_num());
    let a = assemble(b"addi x2, x2, 1\n").unwrap();
    let b = assemble(b"addi sp, sp, 1\n").unwrap();
    assert_eq!(a, b);
    // The whole alias table.
    let pairs: Vec<(&[u8], &[u8])> = vec![
        (b"zero", b"x0"),
        (b"ra", b"x1"),
        (b"sp", b"x2"),
        (b"gp", b"x3"),
        (b"tp", b"x4"),
        (b"t0", b"x5"),
        (b"t1", b"x6"),
        (b"t2", b"x7"),
        (b"s0", b"x8"),
        (b"fp", b"x8"),
        (b"s1", b"x9"),
        (b"a0", b"x10"),
        (b"a1", b"x11"),
        (b"a2", b"x12"),
        (b"a3", b"x13"),
        (b"a4", b"x14"),
        (b"a5", b"x15"),
        (b"a6", b"x16"),
        (b"a7", b"x17"),
        (b"s2", b"x18"),
        (b"s3", b"x19"),
        (b"s4", b"x20"),
        (b"s5", b"x21"),
        (b"s6", b"x22"),
        (b"s7", b"x23"),
        (b"s8", b"x24"),
        (b"s9", b"x25"),
        (b"s10", b"x26"),
        (b"s11", b"x27"),
        (b"t3", b"x28"),
        (b"t4", b"x29"),
        (b"t5", b"x30"),
        (b"t6", b"x31"),
    ];
    for (alias, canonical) in pairs {
        assert_eq!(parse_register(alias), parse_register(canonical));
        assert!(parse_register(alias).is_some());
    }
}

#[test]
fn register_ids() {
    assert_eq!(parse_register(b"x0").unwrap().to_num(), 0);
    assert_eq!(parse_register(b"x31").unwrap().to_num(), 31);
    for n in 0..32u8 {
        let name = format!("x{}", n);
        let reg = parse_register(name.as_bytes()).unwrap();
        assert_eq!(reg.to_num(), n);
    }
}

#[test]
fn register_rejects_unknown_names() {
    assert_eq!(parse_register(b"x32"), None);
    assert_eq!(parse_register(b"x01"), None);
    assert_eq!(parse_register(b"q1"), None);
    assert_eq!(parse_register(b""), None);
    assert_eq!(parse_register(b"zer"), None);
    assert_eq!(parse_register(b"zeroo"), None);
    assert_eq!(parse_register(b"s12"), None);
    assert_eq!(parse_register(b"t7"), None);
    assert_eq!(parse_register(b"a8"), None);
    assert_eq!(parse_register(b"X2"), None);
}

#[test]
fn numbers_decimal_and_hex() {
    assert_eq!(parse_number(b"0"), Some(0));
    assert_eq!(parse_number(b"5"), Some(5));
    assert_eq!(parse_number(b"007"), Some(7));
    assert_eq!(parse_number(b"4095"), Some(4095));
    assert_eq!(parse_number(b"0x0"), Some(0));
    assert_eq!(parse_number(b"0xff"), Some(255));
    assert_eq!(parse_number(b"0xFF"), Some(255));
    assert_eq!(parse_number(b"0x1a2B"), Some(0x1A2B));
    assert_eq!(parse_number(b""), None);
    assert_eq!(parse_number(b"0x"), None);
    assert_eq!(parse_number(b"0xg"), None);
    assert_eq!(parse_number(b"12a"), None);
    assert_eq!(parse_number(b"-5"), None);
    // Values beyond usize are rejected, as the whole-pass failure path.
    assert_eq!(parse_number(b"99999999999999999999999999"), None);
}

#[test]
fn addi_line_encodes_to_exact_bytes() {
    // opcode 0010011, rd=1, funct3=000, rs1=0, imm=5.
    let out = assemble(b"addi x1, x0, 5\n").unwrap();
    assert_eq!(out, vec![0x93, 0x00, 0x50, 0x00]);
    // Without the trailing newline the line still assembles.
    let out = assemble(b"addi x1, x0, 5").unwrap();
    assert_eq!(out, vec![0x93, 0x00, 0x50, 0x00]);
}

#[test]
fn nop_is_a_fixed_i_format_word() {
    let first = assemble(b"nop\n").unwrap();
    let second = assemble(b"nop\n").unwrap();
    assert_eq!(first, second);
    assert_eq!(first.len(), 4);
    let word = u32::from_le_bytes([first[0], first[1], first[2], first[3]]);
    let rec = I::parse(word);
    assert_eq!(rec.opcode, 0x13);
    assert_eq!(rec.rd, 0);
    assert_eq!(rec.funct3, 0);
    assert_eq!(rec.rs1, 0);
    assert_eq!(rec.immediate, 0);
}

#[test]
fn add_line_encodes_r_format() {
    // opcode 0110011, funct3=000, funct7=0000000, rd=10, rs1=11, rs2=12.
    let out = assemble(b"add a0, a1, a2\n").unwrap();
    assert_eq!(out.len(), 4);
    let word = u32::from_le_bytes([out[0], out[1], out[2], out[3]]);
    let rec = R::parse(word);
    assert_eq!(rec.opcode, 0b0110011);
    assert_eq!(rec.funct3, 0b000);
    assert_eq!(rec.funct7, 0b0000000);
    assert_eq!(rec.rd, 10);
    assert_eq!(rec.rs1, 11);
    assert_eq!(rec.rs2, 12);
    assert_eq!(word, 0x00C5_8533);
}

#[test]
fn two_lines_emit_eight_bytes_in_order() {
    let out = assemble(b"addi x1, x0, 5\nadd a0, a1, a2").unwrap();
    assert_eq!(out.len(), 8);
    assert_eq!(&out[0..4], &[0x93, 0x00, 0x50, 0x00]);
    assert_eq!(&out[4..8], &[0x33, 0x85, 0xC5, 0x00]);
    // A trailing newline after the last line changes nothing.
    let out2 = assemble(b"addi x1, x0, 5\nadd a0, a1, a2\n").unwrap();
    assert_eq!(out, out2);
}

#[test]
fn empty_input_succeeds_with_no_bytes() {
    let out = assemble(b"").unwrap();
    assert_eq!(out.len(), 0);
}

#[test]
fn unrecognized_input_fails_whole_pass() {
    // Unknown mnemonic.
    assert_eq!(assemble(b"mul x1, x0, 5\n"), None);
    // Unknown register name.
    assert_eq!(assemble(b"addi q1, x0, 5\n"), None);
    // A later bad line discards the earlier good one: no partial output.
    assert_eq!(assemble(b"addi x1, x0, 5\nbogus\n"), None);
    assert_eq!(assemble(b"bogus\naddi x1, x0, 5\n"), None);
}

#[test]
fn leftover_content_fails() {
    assert_eq!(assemble(b"addi x1, x0, 5 junk\n"), None);
    assert_eq!(assemble(b"nopx\n"), None);
    assert_eq!(assemble(b"addi x1, x0, 5,\n"), None);
    assert_eq!(assemble(b"addi x1, x0,\n"), None);
    assert_eq!(assemble(b"addi x1 x0 5\n"), None);
    assert_eq!(assemble(b"addi\n"), None);
    // A blank line matches no alternative.
    assert_eq!(assemble(b"\n"), None);
    assert_eq!(assemble(b"addi x1, x0, 5\n\nnop\n"), None);
}

#[test]
fn whitespace_tolerance() {
    assert_eq!(assemble(b"addi x1,x0,5\n"), assemble(b"addi x1, x0, 5\n"));
    assert_eq!(assemble(b"addi\tx1,\tx0,\t5\n"), assemble(b"addi x1, x0, 5\n"));
    assert_eq!(assemble(b"addi  x1,  x0,  5  \n"), assemble(b"addi x1, x0, 5\n"));
    assert_eq!(assemble(b"nop \n"), assemble(b"nop\n"));
    // No space between register and comma is required to be absent.
    assert_eq!(assemble(b"addi x1 , x0, 5\n"), None);
}

#[test]
fn every_immediate_mnemonic_encodes() {
    let cases: Vec<(&[u8], u32, u32)> = vec![
        // (line, funct3, immediate field)
        (b"addi x1, x2, 3", 0b000, 3),
        (b"slti x1, x2, 3", 0b010, 3),
        (b"sltiu x1, x2, 3", 0b011, 3),
        (b"andi x1, x2, 3", 0b111, 3),
        (b"ori x1, x2, 3", 0b110, 3),
        (b"xori x1, x2, 3", 0b100, 3),
        (b"slli x1, x2, 3", 0b001, 3),
        (b"srli x1, x2, 3", 0b101, 3),
        (b"srai x1, x2, 3", 0b101, 0x403),
    ];
    for (line, funct3, field) in cases {
        let out = assemble(line).unwrap();
        let word = u32::from_le_bytes([out[0], out[1], out[2], out[3]]);
        let expected = (field << 20) | (2 << 15) | (funct3 << 12) | (1 << 7) | 0x13;
        assert_eq!(word, expected, "line {:?}", std::str::from_utf8(line));
    }
}

#[test]
fn srai_exact_word() {
    let out = assemble(b"srai x1, x2, 1\n").unwrap();
    let word = u32::from_le_bytes([out[0], out[1], out[2], out[3]]);
    assert_eq!(word, 0x4011_5093);
}

#[test]
fn shift_amount_uses_low_five_bits() {
    // A shift amount is taken modulo 32, the rest of the field being the
    // operation's funct7 constant.
    assert_eq!(assemble(b"slli x1, x2, 33\n"), assemble(b"slli x1, x2, 1\n"));
    assert_eq!(assemble(b"srai x1, x2, 33\n"), assemble(b"srai x1, x2, 1\n"));
}

#[test]
fn wide_immediates_are_masked() {
    // An immediate wider than the 12-bit field is truncated silently.
    assert_eq!(assemble(b"addi x1, x0, 4096\n"), assemble(b"addi x1, x0, 0\n"));
    assert_eq!(assemble(b"addi x1, x0, 0xfff\n").unwrap(), vec![0x93, 0x00, 0xF0, 0xFF]);
}

#[test]
fn hex_and_decimal_immediates_agree() {
    assert_eq!(assemble(b"addi x1, x0, 0xff\n"), assemble(b"addi x1, x0, 255\n"));
}

#[test]
fn parse_instruction_builds_the_model() {
    assert_eq!(
        parse_instruction(b"addi x1, x0, 5"),
        Some(Instruction::Addi(Register::X1, Register::X0, 5))
    );
    assert_eq!(parse_instruction(b"nop"), Some(Instruction::Nop));
    assert_eq!(
        parse_instruction(b"add a0, a1, a2"),
        Some(Instruction::Add(Register::X10, Register::X11, Register::X12))
    );
    assert_eq!(parse_instruction(b"add a0, a1, 5"), None);
    assert_eq!(parse_instruction(b"addi x1, x0"), None);
    assert_eq!(parse_instruction(b""), None);
}

#[test]
fn parse_program_preserves_order() {
    let prog = parse_program(b"nop\naddi x1, x0, 5\nnop").unwrap();
    assert_eq!(
        prog,
        vec![
            Instruction::Nop,
            Instruction::Addi(Register::X1, Register::X0, 5),
            Instruction::Nop,
        ]
    );
    assert_eq!(parse_program(b""), Some(vec![]));
    assert_eq!(parse_program(b"nop\nbogus"), None);
}

#[test]
fn instruction_to_raw_words() {
    assert_eq!(Instruction::Nop.to_raw(), 0x13);
    assert_eq!(Instruction::Addi(Register::X1, Register::X0, 5).to_raw(), 0x0050_0093);
    assert_eq!(
        Instruction::Add(Register::X10, Register::X11, Register::X12).to_raw(),
        0x00C5_8533
    );
    assert_eq!(Instruction::Andi(Register::X5, Register::X6, 7).to_raw(), 0x0073_7293);
}
