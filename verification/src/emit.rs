//! The byte emitter and the whole pipeline: parse newline-delimited
//! assembly text and serialize each instruction's raw word as 4
//! little-endian bytes, in program order, all-or-nothing.

use vstd::prelude::*;

use crate::ast::{spec_instruction_word, Instruction};
use crate::parser::{parse_program, spec_program};

verus! {

/// The 4 little-endian bytes of a word: lowest byte first.
pub open spec fn spec_le_bytes(w: u32) -> Seq<u8> {
    seq![
        (w & 0xff) as u8,
        ((w >> 8) & 0xff) as u8,
        ((w >> 16) & 0xff) as u8,
        ((w >> 24) & 0xff) as u8,
    ]
}

/// The byte stream a program denotes: each instruction's word as 4
/// little-endian bytes, concatenated in program order.
pub open spec fn spec_program_bytes(instrs: Seq<Instruction>) -> Seq<u8>
    decreases instrs.len(),
{
    if instrs.len() == 0 {
        Seq::empty()
    } else {
        spec_le_bytes(spec_instruction_word(instrs.first())) + spec_program_bytes(
            instrs.drop_first(),
        )
    }
}

/// The byte stream grows by one word's 4 bytes per appended instruction.
pub proof fn lemma_program_bytes_push(instrs: Seq<Instruction>, x: Instruction)
    ensures
        spec_program_bytes(instrs.push(x)) == spec_program_bytes(instrs) + spec_le_bytes(
            spec_instruction_word(x),
        ),
    decreases instrs.len(),
{
    if instrs.len() == 0 {
        let single = instrs.push(x);
        assert(single.first() == x);
        assert(single.drop_first() =~= Seq::<Instruction>::empty());
        assert(spec_program_bytes(Seq::<Instruction>::empty()) == Seq::<u8>::empty());
        assert(spec_program_bytes(single) == spec_le_bytes(spec_instruction_word(x)) + Seq::<
            u8,
        >::empty());
        assert(spec_le_bytes(spec_instruction_word(x)) + Seq::<u8>::empty() =~= spec_le_bytes(
            spec_instruction_word(x),
        ));
        assert(Seq::<u8>::empty() + spec_le_bytes(spec_instruction_word(x)) =~= spec_le_bytes(
            spec_instruction_word(x),
        ));
    } else {
        lemma_program_bytes_push(instrs.drop_first(), x);
        assert(instrs.push(x).drop_first() =~= instrs.drop_first().push(x));
        assert(instrs.push(x).first() == instrs.first());
        assert(spec_program_bytes(instrs) + spec_le_bytes(spec_instruction_word(x))
            =~= spec_le_bytes(spec_instruction_word(instrs.first())) + (spec_program_bytes(
            instrs.drop_first(),
        ) + spec_le_bytes(spec_instruction_word(x))));
    }
}

/// A program of n instructions yields exactly 4 n bytes.
pub proof fn lemma_program_bytes_len(instrs: Seq<Instruction>)
    ensures
        spec_program_bytes(instrs).len() == 4 * instrs.len(),
    decreases instrs.len(),
{
    if instrs.len() > 0 {
        lemma_program_bytes_len(instrs.drop_first());
    }
}

/// Appends the 4 little-endian bytes of one word.
fn push_word_le(out: &mut Vec<u8>, w: u32)
    ensures
        final(out)@ == old(out)@ + spec_le_bytes(w),
{
    proof {
        assert(w & 0xff < 256 && (w >> 8) & 0xff < 256 && (w >> 16) & 0xff < 256 && (w >> 24)
            & 0xff < 256) by (bit_vector);
    }
    out.push((w & 0xff) as u8);
    out.push(((w >> 8) & 0xff) as u8);
    out.push(((w >> 16) & 0xff) as u8);
    out.push(((w >> 24) & 0xff) as u8);
    proof {
        assert(out@ =~= old(out)@ + spec_le_bytes(w));
    }
}

/// Assembles a whole input: the byte stream of the program it denotes, with
/// exactly 4 bytes per parsed instruction in input order, or None when any
/// line fails to parse. The empty input assembles to the empty stream.
pub fn assemble(input: &[u8]) -> (r: Option<Vec<u8>>)
    ensures
        match r {
            Some(bytes) => spec_program(input@) is Some && bytes@ == spec_program_bytes(
                spec_program(input@)->Some_0,
            ) && bytes@.len() == 4 * spec_program(input@)->Some_0.len(),
            None => spec_program(input@) is None,
        },
{
    let instrs = match parse_program(input) {
        Some(v) => v,
        None => {
            return None;
        },
    };
    let mut out: Vec<u8> = Vec::new();
    let mut k: usize = 0;
    proof {
        assert(instrs@.subrange(0, 0) =~= Seq::<Instruction>::empty());
    }
    while k < instrs.len()
        invariant
            k <= instrs@.len(),
            out@ == spec_program_bytes(instrs@.subrange(0, k as int)),
        decreases instrs@.len() - k,
    {
        let w = instrs[k].to_raw();
        proof {
            assert(instrs@.subrange(0, k + 1) =~= instrs@.subrange(0, k as int).push(
                instrs@[k as int],
            ));
            lemma_program_bytes_push(instrs@.subrange(0, k as int), instrs@[k as int]);
        }
        push_word_le(&mut out, w);
        k = k + 1;
    }
    proof {
        assert(instrs@.subrange(0, instrs@.len() as int) =~= instrs@);
        lemma_program_bytes_len(instrs@);
    }
    Some(out)
}

} // verus!
