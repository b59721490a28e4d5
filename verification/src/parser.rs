//! The mnemonic parser: turns newline-delimited assembly text into the
//! ordered sequence of instructions it denotes, or fails as a whole.
//!
//! Grammar, line by line: a statement is a mnemonic followed by its
//! comma-separated operands (registers by canonical name `x0`..`x31` or ABI
//! alias, immediates in decimal or `0x`-prefixed hex), with at least one
//! space after the mnemonic, optional spaces after each comma and optional
//! trailing whitespace. Every line must be consumed entirely; any mismatch
//! fails the whole pass.

use vstd::prelude::*;
use vstd::slice::slice_subrange;

use crate::ast::{Instruction, Register};

verus! {

// ---------------------------------------------------------------------------
// Character classes and scanning.
// ---------------------------------------------------------------------------

pub open spec fn is_space(b: u8) -> bool {
    b == 32 || b == 9
}

/// Token bytes: ASCII letters and digits. Mnemonics, register names and
/// immediates are each one maximal run of these.
pub open spec fn is_token_byte(b: u8) -> bool {
    ('a' as u8) <= b <= ('z' as u8) || ('A' as u8) <= b <= ('Z' as u8) || ('0' as u8) <= b <= (
    '9' as u8)
}

/// The first position at or after `i` that holds a non-space byte, or the
/// end of `s`.
pub open spec fn spec_skip_spaces(s: Seq<u8>, i: int) -> int
    decreases s.len() - i,
{
    if i < 0 || i >= s.len() {
        i
    } else if is_space(s[i]) {
        spec_skip_spaces(s, i + 1)
    } else {
        i
    }
}

/// The first position at or after `i` that holds a non-token byte, or the
/// end of `s`: the end of the token starting at `i`.
pub open spec fn spec_token_end(s: Seq<u8>, i: int) -> int
    decreases s.len() - i,
{
    if i < 0 || i >= s.len() {
        i
    } else if is_token_byte(s[i]) {
        spec_token_end(s, i + 1)
    } else {
        i
    }
}

fn skip_spaces(s: &[u8], from: usize) -> (r: usize)
    requires
        from <= s@.len(),
    ensures
        r == spec_skip_spaces(s@, from as int),
        from <= r <= s@.len(),
{
    let mut j = from;
    while j < s.len() && (s[j] == 32 || s[j] == 9)
        invariant
            from <= j <= s@.len(),
            spec_skip_spaces(s@, from as int) == spec_skip_spaces(s@, j as int),
        decreases s@.len() - j,
    {
        j = j + 1;
    }
    j
}

fn token_end(s: &[u8], from: usize) -> (r: usize)
    requires
        from <= s@.len(),
    ensures
        r == spec_token_end(s@, from as int),
        from <= r <= s@.len(),
{
    let mut j = from;
    while j < s.len() && ((97 <= s[j] && s[j] <= 122) || (65 <= s[j] && s[j] <= 90) || (48 <= s[j]
        && s[j] <= 57))
        invariant
            from <= j <= s@.len(),
            spec_token_end(s@, from as int) == spec_token_end(s@, j as int),
        decreases s@.len() - j,
    {
        j = j + 1;
    }
    j
}

// ---------------------------------------------------------------------------
// Register names: canonical `x0`..`x31` and the ABI aliases.
// ---------------------------------------------------------------------------

/// The register a two-byte name denotes, if any.
pub open spec fn spec_register_2(a: u8, b: u8) -> Option<Register> {
    if a == 'x' as u8 {
        if b == '0' as u8 {
            Some(Register::X0)
        } else if b == '1' as u8 {
            Some(Register::X1)
        } else if b == '2' as u8 {
            Some(Register::X2)
        } else if b == '3' as u8 {
            Some(Register::X3)
        } else if b == '4' as u8 {
            Some(Register::X4)
        } else if b == '5' as u8 {
            Some(Register::X5)
        } else if b == '6' as u8 {
            Some(Register::X6)
        } else if b == '7' as u8 {
            Some(Register::X7)
        } else if b == '8' as u8 {
            Some(Register::X8)
        } else if b == '9' as u8 {
            Some(Register::X9)
        } else {
            None
        }
    } else if a == 'r' as u8 && b == 'a' as u8 {
        Some(Register::X1)
    } else if a == 'g' as u8 && b == 'p' as u8 {
        Some(Register::X3)
    } else if a == 'f' as u8 && b == 'p' as u8 {
        Some(Register::X8)
    } else if a == 's' as u8 {
        if b == 'p' as u8 {
            Some(Register::X2)
        } else if b == '0' as u8 {
            Some(Register::X8)
        } else if b == '1' as u8 {
            Some(Register::X9)
        } else if b == '2' as u8 {
            Some(Register::X18)
        } else if b == '3' as u8 {
            Some(Register::X19)
        } else if b == '4' as u8 {
            Some(Register::X20)
        } else if b == '5' as u8 {
            Some(Register::X21)
        } else if b == '6' as u8 {
            Some(Register::X22)
        } else if b == '7' as u8 {
            Some(Register::X23)
        } else if b == '8' as u8 {
            Some(Register::X24)
        } else if b == '9' as u8 {
            Some(Register::X25)
        } else {
            None
        }
    } else if a == 't' as u8 {
        if b == 'p' as u8 {
            Some(Register::X4)
        } else if b == '0' as u8 {
            Some(Register::X5)
        } else if b == '1' as u8 {
            Some(Register::X6)
        } else if b == '2' as u8 {
            Some(Register::X7)
        } else if b == '3' as u8 {
            Some(Register::X28)
        } else if b == '4' as u8 {
            Some(Register::X29)
        } else if b == '5' as u8 {
            Some(Register::X30)
        } else if b == '6' as u8 {
            Some(Register::X31)
        } else {
            None
        }
    } else if a == 'a' as u8 {
        if b == '0' as u8 {
            Some(Register::X10)
        } else if b == '1' as u8 {
            Some(Register::X11)
        } else if b == '2' as u8 {
            Some(Register::X12)
        } else if b == '3' as u8 {
            Some(Register::X13)
        } else if b == '4' as u8 {
            Some(Register::X14)
        } else if b == '5' as u8 {
            Some(Register::X15)
        } else if b == '6' as u8 {
            Some(Register::X16)
        } else if b == '7' as u8 {
            Some(Register::X17)
        } else {
            None
        }
    } else {
        None
    }
}

/// The register a three-byte name denotes, if any.
pub open spec fn spec_register_3(a: u8, b: u8, c: u8) -> Option<Register> {
    if a == 'x' as u8 {
        if b == '1' as u8 {
            if c == '0' as u8 {
                Some(Register::X10)
            } else if c == '1' as u8 {
                Some(Register::X11)
            } else if c == '2' as u8 {
                Some(Register::X12)
            } else if c == '3' as u8 {
                Some(Register::X13)
            } else if c == '4' as u8 {
                Some(Register::X14)
            } else if c == '5' as u8 {
                Some(Register::X15)
            } else if c == '6' as u8 {
                Some(Register::X16)
            } else if c == '7' as u8 {
                Some(Register::X17)
            } else if c == '8' as u8 {
                Some(Register::X18)
            } else if c == '9' as u8 {
                Some(Register::X19)
            } else {
                None
            }
        } else if b == '2' as u8 {
            if c == '0' as u8 {
                Some(Register::X20)
            } else if c == '1' as u8 {
                Some(Register::X21)
            } else if c == '2' as u8 {
                Some(Register::X22)
            } else if c == '3' as u8 {
                Some(Register::X23)
            } else if c == '4' as u8 {
                Some(Register::X24)
            } else if c == '5' as u8 {
                Some(Register::X25)
            } else if c == '6' as u8 {
                Some(Register::X26)
            } else if c == '7' as u8 {
                Some(Register::X27)
            } else if c == '8' as u8 {
                Some(Register::X28)
            } else if c == '9' as u8 {
                Some(Register::X29)
            } else {
                None
            }
        } else if b == '3' as u8 {
            if c == '0' as u8 {
                Some(Register::X30)
            } else if c == '1' as u8 {
                Some(Register::X31)
            } else {
                None
            }
        } else {
            None
        }
    } else if a == 's' as u8 && b == '1' as u8 {
        if c == '0' as u8 {
            Some(Register::X26)
        } else if c == '1' as u8 {
            Some(Register::X27)
        } else {
            None
        }
    } else {
        None
    }
}

/// The register a whole token denotes, if any: `x<n>` without leading zeros,
/// or an ABI alias (zero, ra, sp, gp, tp, t0-t6, s0-s11, fp, a0-a7).
pub open spec fn spec_register_of_token(t: Seq<u8>) -> Option<Register> {
    if t.len() == 2 {
        spec_register_2(t[0], t[1])
    } else if t.len() == 3 {
        spec_register_3(t[0], t[1], t[2])
    } else if t.len() == 4 && t[0] == 'z' as u8 && t[1] == 'e' as u8 && t[2] == 'r' as u8 && t[3]
        == 'o' as u8 {
        Some(Register::X0)
    } else {
        None
    }
}

/// Parses one register name given as a whole token.
pub fn parse_register(t: &[u8]) -> (r: Option<Register>)
    ensures
        r == spec_register_of_token(t@),
{
    if t.len() == 2 {
        register_2(t[0], t[1])
    } else if t.len() == 3 {
        register_3(t[0], t[1], t[2])
    } else if t.len() == 4 && t[0] == 122 && t[1] == 101 && t[2] == 114 && t[3] == 111 {
        Some(Register::X0)
    } else {
        None
    }
}

fn register_2(a: u8, b: u8) -> (r: Option<Register>)
    ensures
        r == spec_register_2(a, b),
{
    if a == 120 {
        if b == 48 {
            Some(Register::X0)
        } else if b == 49 {
            Some(Register::X1)
        } else if b == 50 {
            Some(Register::X2)
        } else if b == 51 {
            Some(Register::X3)
        } else if b == 52 {
            Some(Register::X4)
        } else if b == 53 {
            Some(Register::X5)
        } else if b == 54 {
            Some(Register::X6)
        } else if b == 55 {
            Some(Register::X7)
        } else if b == 56 {
            Some(Register::X8)
        } else if b == 57 {
            Some(Register::X9)
        } else {
            None
        }
    } else if a == 114 && b == 97 {
        Some(Register::X1)
    } else if a == 103 && b == 112 {
        Some(Register::X3)
    } else if a == 102 && b == 112 {
        Some(Register::X8)
    } else if a == 115 {
        if b == 112 {
            Some(Register::X2)
        } else if b == 48 {
            Some(Register::X8)
        } else if b == 49 {
            Some(Register::X9)
        } else if b == 50 {
            Some(Register::X18)
        } else if b == 51 {
            Some(Register::X19)
        } else if b == 52 {
            Some(Register::X20)
        } else if b == 53 {
            Some(Register::X21)
        } else if b == 54 {
            Some(Register::X22)
        } else if b == 55 {
            Some(Register::X23)
        } else if b == 56 {
            Some(Register::X24)
        } else if b == 57 {
            Some(Register::X25)
        } else {
            None
        }
    } else if a == 116 {
        if b == 112 {
            Some(Register::X4)
        } else if b == 48 {
            Some(Register::X5)
        } else if b == 49 {
            Some(Register::X6)
        } else if b == 50 {
            Some(Register::X7)
        } else if b == 51 {
            Some(Register::X28)
        } else if b == 52 {
            Some(Register::X29)
        } else if b == 53 {
            Some(Register::X30)
        } else if b == 54 {
            Some(Register::X31)
        } else {
            None
        }
    } else if a == 97 {
        if b == 48 {
            Some(Register::X10)
        } else if b == 49 {
            Some(Register::X11)
        } else if b == 50 {
            Some(Register::X12)
        } else if b == 51 {
            Some(Register::X13)
        } else if b == 52 {
            Some(Register::X14)
        } else if b == 53 {
            Some(Register::X15)
        } else if b == 54 {
            Some(Register::X16)
        } else if b == 55 {
            Some(Register::X17)
        } else {
            None
        }
    } else {
        None
    }
}

fn register_3(a: u8, b: u8, c: u8) -> (r: Option<Register>)
    ensures
        r == spec_register_3(a, b, c),
{
    if a == 120 {
        if b == 49 {
            if c == 48 {
                Some(Register::X10)
            } else if c == 49 {
                Some(Register::X11)
            } else if c == 50 {
                Some(Register::X12)
            } else if c == 51 {
                Some(Register::X13)
            } else if c == 52 {
                Some(Register::X14)
            } else if c == 53 {
                Some(Register::X15)
            } else if c == 54 {
                Some(Register::X16)
            } else if c == 55 {
                Some(Register::X17)
            } else if c == 56 {
                Some(Register::X18)
            } else if c == 57 {
                Some(Register::X19)
            } else {
                None
            }
        } else if b == 50 {
            if c == 48 {
                Some(Register::X20)
            } else if c == 49 {
                Some(Register::X21)
            } else if c == 50 {
                Some(Register::X22)
            } else if c == 51 {
                Some(Register::X23)
            } else if c == 52 {
                Some(Register::X24)
            } else if c == 53 {
                Some(Register::X25)
            } else if c == 54 {
                Some(Register::X26)
            } else if c == 55 {
                Some(Register::X27)
            } else if c == 56 {
                Some(Register::X28)
            } else if c == 57 {
                Some(Register::X29)
            } else {
                None
            }
        } else if b == 51 {
            if c == 48 {
                Some(Register::X30)
            } else if c == 49 {
                Some(Register::X31)
            } else {
                None
            }
        } else {
            None
        }
    } else if a == 115 && b == 49 {
        if c == 48 {
            Some(Register::X26)
        } else if c == 49 {
            Some(Register::X27)
        } else {
            None
        }
    } else {
        None
    }
}

// ---------------------------------------------------------------------------
// Immediates: unsigned decimal or `0x`-prefixed hex, token-wide.
// ---------------------------------------------------------------------------

pub open spec fn is_dec_digit(b: u8) -> bool {
    ('0' as u8) <= b <= ('9' as u8)
}

pub open spec fn is_hex_digit(b: u8) -> bool {
    is_dec_digit(b) || ('a' as u8) <= b <= ('f' as u8) || ('A' as u8) <= b <= ('F' as u8)
}

/// The numeric value of one hex digit; decimal digits are the subset below
/// ten.
pub open spec fn spec_digit_value(b: u8) -> int {
    if is_dec_digit(b) {
        b - ('0' as u8)
    } else if ('a' as u8) <= b <= ('f' as u8) {
        b - ('a' as u8) + 10
    } else {
        b - ('A' as u8) + 10
    }
}

pub open spec fn spec_all_dec(t: Seq<u8>) -> bool {
    forall|j: int| 0 <= j < t.len() ==> is_dec_digit(#[trigger] t[j])
}

pub open spec fn spec_all_hex(t: Seq<u8>) -> bool {
    forall|j: int| 0 <= j < t.len() ==> is_hex_digit(#[trigger] t[j])
}

/// The value of a digit string read most-significant first, in the given
/// radix.
pub open spec fn spec_digits_value(t: Seq<u8>, radix: int) -> int
    decreases t.len(),
{
    if t.len() == 0 {
        0
    } else {
        spec_digits_value(t.drop_last(), radix) * radix + spec_digit_value(t.last())
    }
}

/// The immediate a whole token denotes, if any: `0x` then one or more hex
/// digits, or one or more decimal digits, rejected when the value exceeds
/// `usize::MAX`.
pub open spec fn spec_number_of_token(t: Seq<u8>) -> Option<usize> {
    if t.len() >= 3 && t[0] == '0' as u8 && t[1] == 'x' as u8 {
        let digits = t.subrange(2, t.len() as int);
        if spec_all_hex(digits) && spec_digits_value(digits, 16) <= usize::MAX {
            Some(spec_digits_value(digits, 16) as usize)
        } else {
            None
        }
    } else if t.len() >= 1 && spec_all_dec(t) {
        if spec_digits_value(t, 10) <= usize::MAX {
            Some(spec_digits_value(t, 10) as usize)
        } else {
            None
        }
    } else {
        None
    }
}

proof fn lemma_digits_value_nonneg(t: Seq<u8>, radix: int)
    requires
        radix >= 1,
        forall|k: int| 0 <= k < t.len() ==> spec_digit_value(#[trigger] t[k]) >= 0,
    ensures
        spec_digits_value(t, radix) >= 0,
    decreases t.len(),
{
    if t.len() > 0 {
        lemma_digits_value_nonneg(t.drop_last(), radix);
        assert(spec_digits_value(t.drop_last(), radix) * radix >= 0) by (nonlinear_arith)
            requires
                spec_digits_value(t.drop_last(), radix) >= 0,
                radix >= 1,
        ;
        assert(spec_digit_value(t.last()) >= 0);
    }
}

/// Appending digits never shrinks the value: the value of a proper prefix is
/// at most the value of the whole string.
proof fn lemma_digits_value_prefix(t: Seq<u8>, j: int, radix: int)
    requires
        radix >= 2,
        0 <= j <= t.len(),
        forall|k: int| 0 <= k < t.len() ==> spec_digit_value(#[trigger] t[k]) >= 0,
    ensures
        spec_digits_value(t.subrange(0, j), radix) <= spec_digits_value(t, radix),
    decreases t.len() - j,
{
    if j == t.len() {
        assert(t.subrange(0, j) =~= t);
    } else {
        lemma_digits_value_prefix(t, j + 1, radix);
        let p = t.subrange(0, j);
        let q = t.subrange(0, j + 1);
        assert(q.drop_last() =~= p);
        assert(q.last() == t[j]);
        assert forall|k: int| 0 <= k < p.len() implies spec_digit_value(#[trigger] p[k]) >= 0 by {
            assert(p[k] == t[k]);
        }
        lemma_digits_value_nonneg(p, radix);
        assert(spec_digits_value(p, radix) * radix >= spec_digits_value(p, radix))
            by (nonlinear_arith)
            requires
                spec_digits_value(p, radix) >= 0,
                radix >= 2,
        ;
    }
}

/// Parses a digit string in the given radix (10 or 16), returning its value
/// or None when a byte is not a digit or the value does not fit in usize.
fn parse_digits(t: &[u8], radix: usize) -> (r: Option<usize>)
    requires
        radix == 10 || radix == 16,
    ensures
        match r {
            Some(v) => spec_all_digits(t@, radix as int) && v == spec_digits_value(
                t@,
                radix as int,
            ),
            None => !spec_all_digits(t@, radix as int) || spec_digits_value(t@, radix as int)
                > usize::MAX,
        },
{
    let ghost rad: int = radix as int;
    let mut acc: usize = 0;
    let mut j: usize = 0;
    while j < t.len()
        invariant
            radix == 10 || radix == 16,
            rad == radix as int,
            0 <= j <= t@.len(),
            spec_all_digits(t@.subrange(0, j as int), rad),
            acc == spec_digits_value(t@.subrange(0, j as int), rad),
        decreases t@.len() - j,
    {
        let b = t[j];
        let d: usize = if 48 <= b && b <= 57 {
            (b - 48) as usize
        } else if radix == 16 && 97 <= b && b <= 102 {
            (b - 87) as usize
        } else if radix == 16 && 65 <= b && b <= 70 {
            (b - 55) as usize
        } else {
            assert(!spec_digit_ok(t@[j as int], rad));
            return None;
        };
        assert(spec_digit_ok(t@[j as int], rad) && d == spec_digit_value(t@[j as int]));
        let next = match acc.checked_mul(radix) {
            Some(m) => m.checked_add(d),
            None => None,
        };
        match next {
            Some(v) => {
                proof {
                    let q = t@.subrange(0, j + 1);
                    assert(q.drop_last() =~= t@.subrange(0, j as int));
                    assert(q.last() == t@[j as int]);
                }
                acc = v;
                j = j + 1;
            },
            None => {
                proof {
                    let q = t@.subrange(0, j + 1);
                    assert(q.drop_last() =~= t@.subrange(0, j as int));
                    assert(q.last() == t@[j as int]);
                    assert(spec_digits_value(q, rad) > usize::MAX);
                    if spec_all_digits(t@, rad) {
                        assert forall|k: int| 0 <= k < t@.len() implies spec_digit_value(
                            #[trigger] t@[k],
                        ) >= 0 by {
                            assert(spec_digit_ok(t@[k], rad));
                        }
                        lemma_digits_value_prefix(t@, j + 1, rad);
                    }
                }
                return None;
            },
        }
    }
    proof {
        assert(t@.subrange(0, t@.len() as int) =~= t@);
    }
    Some(acc)
}

/// Whether a byte is a digit of the given radix.
pub open spec fn spec_digit_ok(b: u8, radix: int) -> bool {
    if radix == 16 {
        is_hex_digit(b)
    } else {
        is_dec_digit(b)
    }
}

pub open spec fn spec_all_digits(t: Seq<u8>, radix: int) -> bool {
    forall|j: int| 0 <= j < t.len() ==> spec_digit_ok(#[trigger] t[j], radix)
}

/// Parses one immediate given as a whole token.
pub fn parse_number(t: &[u8]) -> (r: Option<usize>)
    ensures
        r == spec_number_of_token(t@),
{
    if t.len() >= 3 && t[0] == 48 && t[1] == 120 {
        let digits = vstd::slice::slice_subrange(t, 2, t.len());
        let r = parse_digits(digits, 16);
        proof {
            assert(spec_all_digits(digits@, 16) == spec_all_hex(digits@));
        }
        r
    } else {
        if t.len() == 0 {
            return None;
        }
        let r = parse_digits(t, 10);
        proof {
            assert(spec_all_digits(t@, 10) == spec_all_dec(t@));
        }
        r
    }
}

// ---------------------------------------------------------------------------
// Mnemonics.
// ---------------------------------------------------------------------------

/// The nine register-immediate operations.
#[derive(Clone, Copy, Debug, PartialEq, Eq, Structural)]
pub enum ImmOp {
    Addi,
    Slti,
    Sltiu,
    Andi,
    Ori,
    Xori,
    Slli,
    Srli,
    Srai,
}

/// The shape a mnemonic selects: a register-immediate operation, the
/// zero-operand no-op, or the register-register add.
#[derive(Clone, Copy, Debug, PartialEq, Eq, Structural)]
pub enum Mnemonic {
    Imm(ImmOp),
    Nop,
    Add,
}

/// The mnemonic a whole token denotes, if any.
pub open spec fn spec_mnemonic_of_token(t: Seq<u8>) -> Option<Mnemonic> {
    if t.len() == 3 {
        if t[0] == 'n' as u8 && t[1] == 'o' as u8 && t[2] == 'p' as u8 {
            Some(Mnemonic::Nop)
        } else if t[0] == 'a' as u8 && t[1] == 'd' as u8 && t[2] == 'd' as u8 {
            Some(Mnemonic::Add)
        } else if t[0] == 'o' as u8 && t[1] == 'r' as u8 && t[2] == 'i' as u8 {
            Some(Mnemonic::Imm(ImmOp::Ori))
        } else {
            None
        }
    } else if t.len() == 4 {
        if t[3] != 'i' as u8 {
            None
        } else if t[0] == 'a' as u8 && t[1] == 'd' as u8 && t[2] == 'd' as u8 {
            Some(Mnemonic::Imm(ImmOp::Addi))
        } else if t[0] == 's' as u8 && t[1] == 'l' as u8 && t[2] == 't' as u8 {
            Some(Mnemonic::Imm(ImmOp::Slti))
        } else if t[0] == 'a' as u8 && t[1] == 'n' as u8 && t[2] == 'd' as u8 {
            Some(Mnemonic::Imm(ImmOp::Andi))
        } else if t[0] == 'x' as u8 && t[1] == 'o' as u8 && t[2] == 'r' as u8 {
            Some(Mnemonic::Imm(ImmOp::Xori))
        } else if t[0] == 's' as u8 && t[1] == 'l' as u8 && t[2] == 'l' as u8 {
            Some(Mnemonic::Imm(ImmOp::Slli))
        } else if t[0] == 's' as u8 && t[1] == 'r' as u8 && t[2] == 'l' as u8 {
            Some(Mnemonic::Imm(ImmOp::Srli))
        } else if t[0] == 's' as u8 && t[1] == 'r' as u8 && t[2] == 'a' as u8 {
            Some(Mnemonic::Imm(ImmOp::Srai))
        } else {
            None
        }
    } else if t.len() == 5 && t[0] == 's' as u8 && t[1] == 'l' as u8 && t[2] == 't' as u8 && t[3]
        == 'i' as u8 && t[4] == 'u' as u8 {
        Some(Mnemonic::Imm(ImmOp::Sltiu))
    } else {
        None
    }
}

fn parse_mnemonic(t: &[u8]) -> (r: Option<Mnemonic>)
    ensures
        r == spec_mnemonic_of_token(t@),
{
    if t.len() == 3 {
        if t[0] == 110 && t[1] == 111 && t[2] == 112 {
            Some(Mnemonic::Nop)
        } else if t[0] == 97 && t[1] == 100 && t[2] == 100 {
            Some(Mnemonic::Add)
        } else if t[0] == 111 && t[1] == 114 && t[2] == 105 {
            Some(Mnemonic::Imm(ImmOp::Ori))
        } else {
            None
        }
    } else if t.len() == 4 {
        if t[3] != 105 {
            None
        } else if t[0] == 97 && t[1] == 100 && t[2] == 100 {
            Some(Mnemonic::Imm(ImmOp::Addi))
        } else if t[0] == 115 && t[1] == 108 && t[2] == 116 {
            Some(Mnemonic::Imm(ImmOp::Slti))
        } else if t[0] == 97 && t[1] == 110 && t[2] == 100 {
            Some(Mnemonic::Imm(ImmOp::Andi))
        } else if t[0] == 120 && t[1] == 111 && t[2] == 114 {
            Some(Mnemonic::Imm(ImmOp::Xori))
        } else if t[0] == 115 && t[1] == 108 && t[2] == 108 {
            Some(Mnemonic::Imm(ImmOp::Slli))
        } else if t[0] == 115 && t[1] == 114 && t[2] == 108 {
            Some(Mnemonic::Imm(ImmOp::Srli))
        } else if t[0] == 115 && t[1] == 114 && t[2] == 97 {
            Some(Mnemonic::Imm(ImmOp::Srai))
        } else {
            None
        }
    } else if t.len() == 5 && t[0] == 115 && t[1] == 108 && t[2] == 116 && t[3] == 105 && t[4]
        == 117 {
        Some(Mnemonic::Imm(ImmOp::Sltiu))
    } else {
        None
    }
}

/// The instruction an immediate-form mnemonic builds from its operands.
pub open spec fn spec_imm_instruction(op: ImmOp, dest: Register, src: Register, imm: usize)
    -> Instruction {
    match op {
        ImmOp::Addi => Instruction::Addi(dest, src, imm),
        ImmOp::Slti => Instruction::Slti(dest, src, imm),
        ImmOp::Sltiu => Instruction::Sltiu(dest, src, imm),
        ImmOp::Andi => Instruction::Andi(dest, src, imm),
        ImmOp::Ori => Instruction::Ori(dest, src, imm),
        ImmOp::Xori => Instruction::Xori(dest, src, imm),
        ImmOp::Slli => Instruction::Slli(dest, src, imm),
        ImmOp::Srli => Instruction::Srli(dest, src, imm),
        ImmOp::Srai => Instruction::Srai(dest, src, imm),
    }
}

// ---------------------------------------------------------------------------
// Statements: one line of instruction text.
// ---------------------------------------------------------------------------

/// Operands of an immediate-form statement after the mnemonic, ending at the
/// end of the line: one or more spaces, a register, a comma, optional
/// spaces, a register, a comma, optional spaces, an immediate, optional
/// trailing whitespace.
pub open spec fn spec_reg_reg_imm(line: Seq<u8>, i: int) -> Option<(Register, Register, usize)> {
    if !(i < line.len() && is_space(line[i])) {
        None
    } else {
        let a = spec_skip_spaces(line, i);
        let ae = spec_token_end(line, a);
        match spec_register_of_token(line.subrange(a, ae)) {
            None => None,
            Some(dest) => if !(ae < line.len() && line[ae] == ',' as u8) {
                None
            } else {
                let b = spec_skip_spaces(line, ae + 1);
                let be = spec_token_end(line, b);
                match spec_register_of_token(line.subrange(b, be)) {
                    None => None,
                    Some(src) => if !(be < line.len() && line[be] == ',' as u8) {
                        None
                    } else {
                        let c = spec_skip_spaces(line, be + 1);
                        let ce = spec_token_end(line, c);
                        match spec_number_of_token(line.subrange(c, ce)) {
                            None => None,
                            Some(imm) => if spec_skip_spaces(line, ce) == line.len() {
                                Some((dest, src, imm))
                            } else {
                                None
                            },
                        }
                    },
                }
            },
        }
    }
}

/// Operands of the register-register add after the mnemonic: as in
/// `spec_reg_reg_imm` with a third register in place of the immediate.
pub open spec fn spec_reg_reg_reg(line: Seq<u8>, i: int) -> Option<(Register, Register, Register)> {
    if !(i < line.len() && is_space(line[i])) {
        None
    } else {
        let a = spec_skip_spaces(line, i);
        let ae = spec_token_end(line, a);
        match spec_register_of_token(line.subrange(a, ae)) {
            None => None,
            Some(dest) => if !(ae < line.len() && line[ae] == ',' as u8) {
                None
            } else {
                let b = spec_skip_spaces(line, ae + 1);
                let be = spec_token_end(line, b);
                match spec_register_of_token(line.subrange(b, be)) {
                    None => None,
                    Some(src1) => if !(be < line.len() && line[be] == ',' as u8) {
                        None
                    } else {
                        let c = spec_skip_spaces(line, be + 1);
                        let ce = spec_token_end(line, c);
                        match spec_register_of_token(line.subrange(c, ce)) {
                            None => None,
                            Some(src2) => if spec_skip_spaces(line, ce) == line.len() {
                                Some((dest, src1, src2))
                            } else {
                                None
                            },
                        }
                    },
                }
            },
        }
    }
}

/// The instruction one whole line denotes, if any: a mnemonic token, then
/// the operand shape the mnemonic selects, consuming the line entirely.
pub open spec fn spec_statement(line: Seq<u8>) -> Option<Instruction> {
    let me = spec_token_end(line, 0);
    match spec_mnemonic_of_token(line.subrange(0, me)) {
        None => None,
        Some(m) => match m {
            Mnemonic::Nop => if spec_skip_spaces(line, me) == line.len() {
                Some(Instruction::Nop)
            } else {
                None
            },
            Mnemonic::Add => match spec_reg_reg_reg(line, me) {
                None => None,
                Some(ops) => Some(Instruction::Add(ops.0, ops.1, ops.2)),
            },
            Mnemonic::Imm(op) => match spec_reg_reg_imm(line, me) {
                None => None,
                Some(ops) => Some(spec_imm_instruction(op, ops.0, ops.1, ops.2)),
            },
        },
    }
}

fn parse_reg_reg_imm(line: &[u8], i: usize) -> (r: Option<(Register, Register, usize)>)
    requires
        i <= line@.len(),
    ensures
        r == spec_reg_reg_imm(line@, i as int),
{
    if !(i < line.len() && (line[i] == 32 || line[i] == 9)) {
        return None;
    }
    let a = skip_spaces(line, i);
    let ae = token_end(line, a);
    let dest = match parse_register(slice_subrange(line, a, ae)) {
        Some(reg) => reg,
        None => {
            return None;
        },
    };
    if !(ae < line.len() && line[ae] == 44) {
        return None;
    }
    let b = skip_spaces(line, ae + 1);
    let be = token_end(line, b);
    let src = match parse_register(slice_subrange(line, b, be)) {
        Some(reg) => reg,
        None => {
            return None;
        },
    };
    if !(be < line.len() && line[be] == 44) {
        return None;
    }
    let c = skip_spaces(line, be + 1);
    let ce = token_end(line, c);
    let imm = match parse_number(slice_subrange(line, c, ce)) {
        Some(v) => v,
        None => {
            return None;
        },
    };
    if skip_spaces(line, ce) == line.len() {
        Some((dest, src, imm))
    } else {
        None
    }
}

fn parse_reg_reg_reg(line: &[u8], i: usize) -> (r: Option<(Register, Register, Register)>)
    requires
        i <= line@.len(),
    ensures
        r == spec_reg_reg_reg(line@, i as int),
{
    if !(i < line.len() && (line[i] == 32 || line[i] == 9)) {
        return None;
    }
    let a = skip_spaces(line, i);
    let ae = token_end(line, a);
    let dest = match parse_register(slice_subrange(line, a, ae)) {
        Some(reg) => reg,
        None => {
            return None;
        },
    };
    if !(ae < line.len() && line[ae] == 44) {
        return None;
    }
    let b = skip_spaces(line, ae + 1);
    let be = token_end(line, b);
    let src1 = match parse_register(slice_subrange(line, b, be)) {
        Some(reg) => reg,
        None => {
            return None;
        },
    };
    if !(be < line.len() && line[be] == 44) {
        return None;
    }
    let c = skip_spaces(line, be + 1);
    let ce = token_end(line, c);
    let src2 = match parse_register(slice_subrange(line, c, ce)) {
        Some(reg) => reg,
        None => {
            return None;
        },
    };
    if skip_spaces(line, ce) == line.len() {
        Some((dest, src1, src2))
    } else {
        None
    }
}

/// Parses one whole line of instruction text.
pub fn parse_instruction(line: &[u8]) -> (r: Option<Instruction>)
    ensures
        r == spec_statement(line@),
{
    let me = token_end(line, 0);
    let m = match parse_mnemonic(slice_subrange(line, 0, me)) {
        Some(m) => m,
        None => {
            return None;
        },
    };
    match m {
        Mnemonic::Nop => {
            if skip_spaces(line, me) == line.len() {
                Some(Instruction::Nop)
            } else {
                None
            }
        },
        Mnemonic::Add => {
            match parse_reg_reg_reg(line, me) {
                Some(ops) => Some(Instruction::Add(ops.0, ops.1, ops.2)),
                None => None,
            }
        },
        Mnemonic::Imm(op) => {
            match parse_reg_reg_imm(line, me) {
                Some(ops) => {
                    let inst = match op {
                        ImmOp::Addi => Instruction::Addi(ops.0, ops.1, ops.2),
                        ImmOp::Slti => Instruction::Slti(ops.0, ops.1, ops.2),
                        ImmOp::Sltiu => Instruction::Sltiu(ops.0, ops.1, ops.2),
                        ImmOp::Andi => Instruction::Andi(ops.0, ops.1, ops.2),
                        ImmOp::Ori => Instruction::Ori(ops.0, ops.1, ops.2),
                        ImmOp::Xori => Instruction::Xori(ops.0, ops.1, ops.2),
                        ImmOp::Slli => Instruction::Slli(ops.0, ops.1, ops.2),
                        ImmOp::Srli => Instruction::Srli(ops.0, ops.1, ops.2),
                        ImmOp::Srai => Instruction::Srai(ops.0, ops.1, ops.2),
                    };
                    Some(inst)
                },
                None => None,
            }
        },
    }
}

// ---------------------------------------------------------------------------
// Programs: newline-delimited statements.
// ---------------------------------------------------------------------------

/// The first position at or after `i` that holds a newline, or the end of
/// `s`: the end of the line starting at `i`.
pub open spec fn spec_line_end(s: Seq<u8>, i: int) -> int
    decreases s.len() - i,
{
    if i < 0 || i >= s.len() {
        i
    } else if s[i] == '\n' as u8 {
        i
    } else {
        spec_line_end(s, i + 1)
    }
}

pub proof fn lemma_line_end_bounds(s: Seq<u8>, i: int)
    requires
        0 <= i <= s.len(),
    ensures
        i <= spec_line_end(s, i) <= s.len(),
    decreases s.len() - i,
{
    if i < s.len() && s[i] != '\n' as u8 {
        lemma_line_end_bounds(s, i + 1);
    }
}

fn line_end(s: &[u8], from: usize) -> (r: usize)
    requires
        from <= s@.len(),
    ensures
        r == spec_line_end(s@, from as int),
        from <= r <= s@.len(),
{
    let mut j = from;
    while j < s.len() && s[j] != 10
        invariant
            from <= j <= s@.len(),
            spec_line_end(s@, from as int) == spec_line_end(s@, j as int),
        decreases s@.len() - j,
    {
        j = j + 1;
    }
    j
}

/// The instruction sequence the input from position `i` on denotes, if any:
/// statements separated by single newlines, a trailing newline after the
/// last statement tolerated, every line consumed entirely. The empty rest
/// denotes the empty sequence.
pub open spec fn spec_program_from(s: Seq<u8>, i: int) -> Option<Seq<Instruction>>
    decreases s.len() - i,
    via spec_program_from_decreases
{
    if i < 0 || i >= s.len() {
        Some(Seq::empty())
    } else {
        let e = spec_line_end(s, i);
        match spec_statement(s.subrange(i, e)) {
            None => None,
            Some(inst) => if e >= s.len() {
                Some(seq![inst])
            } else {
                match spec_program_from(s, e + 1) {
                    None => None,
                    Some(rest) => Some(seq![inst] + rest),
                }
            },
        }
    }
}

#[via_fn]
proof fn spec_program_from_decreases(s: Seq<u8>, i: int) {
    if 0 <= i < s.len() {
        lemma_line_end_bounds(s, i);
    }
}

/// The instruction sequence the whole input denotes, if any; the empty
/// input denotes the empty sequence.
pub open spec fn spec_program(s: Seq<u8>) -> Option<Seq<Instruction>> {
    spec_program_from(s, 0)
}

/// Parses a whole program: an ordered instruction list, or None as soon as
/// any line fails to parse.
pub fn parse_program(input: &[u8]) -> (r: Option<Vec<Instruction>>)
    ensures
        match r {
            Some(v) => spec_program(input@) == Some(v@),
            None => spec_program(input@) is None,
        },
{
    let mut out: Vec<Instruction> = Vec::new();
    let mut pos: usize = 0;
    proof {
        if spec_program_from(input@, 0) is Some {
            assert(out@ + spec_program_from(input@, 0)->Some_0 =~= spec_program_from(
                input@,
                0,
            )->Some_0);
        }
    }
    while pos < input.len()
        invariant
            pos <= input@.len(),
            match spec_program_from(input@, pos as int) {
                Some(rest) => spec_program(input@) == Some(out@ + rest),
                None => spec_program(input@) is None,
            },
        decreases input@.len() - pos,
    {
        let e = line_end(input, pos);
        let line = slice_subrange(input, pos, e);
        match parse_instruction(line) {
            None => {
                return None;
            },
            Some(inst) => {
                proof {
                    let s = input@;
                    let whole = spec_program_from(s, pos as int);
                    if e < s.len() {
                        match spec_program_from(s, e + 1) {
                            Some(rest) => {
                                assert(out@.push(inst) + rest =~= out@ + (seq![inst] + rest));
                            },
                            None => {},
                        }
                    } else {
                        assert(out@.push(inst) + Seq::<Instruction>::empty() =~= out@ + seq![
                            inst,
                        ]);
                    }
                }
                out.push(inst);
                if e < input.len() {
                    pos = e + 1;
                } else {
                    pos = e;
                    proof {
                        if spec_program_from(input@, pos as int) is Some {
                            assert(out@ + spec_program_from(input@, pos as int)->Some_0 =~= out@);
                        }
                    }
                }
            },
        }
    }
    proof {
        assert(spec_program_from(input@, pos as int) == Some(Seq::<Instruction>::empty()));
        assert(out@ + Seq::<Instruction>::empty() =~= out@);
    }
    Some(out)
}

} // verus!
