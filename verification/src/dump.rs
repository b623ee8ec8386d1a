//! Diagnostic rendering of a compiled program: one line of ASCII per
//! instruction, iterated by index over the owned instruction copy.

use vstd::prelude::*;

use crate::insn::BpfInsn;
use crate::insn::FilterProgram;

verus! {

/// The ASCII byte for one hexadecimal digit, lower case.
pub open spec fn hex_digit(d: int) -> u8
    recommends
        0 <= d < 16,
{
    if d < 10 {
        (0x30 + d) as u8
    } else {
        (0x57 + d) as u8
    }
}

/// The shortest lower-case hexadecimal rendering of a number.
pub open spec fn spec_hex(n: int) -> Seq<u8>
    recommends
        n >= 0,
    decreases n,
{
    if n < 16 {
        seq![hex_digit(n)]
    } else {
        spec_hex(n / 16).push(hex_digit(n % 16))
    }
}

/// The shortest decimal rendering of a number.
pub open spec fn spec_dec(n: int) -> Seq<u8>
    recommends
        n >= 0,
    decreases n,
{
    if n < 10 {
        seq![(0x30 + n) as u8]
    } else {
        spec_dec(n / 10).push((0x30 + n % 10) as u8)
    }
}

/// One rendered instruction: `{ 0x<code>, <jt>, <jf>, 0x<k> },` and a
/// newline, with the opcode and literal in hexadecimal and the jump offsets
/// in decimal.
pub open spec fn spec_line(i: BpfInsn) -> Seq<u8> {
    seq![0x7bu8, 0x20u8, 0x30u8, 0x78u8] + spec_hex(i.code as int) + seq![0x2cu8, 0x20u8]
        + spec_dec(i.jt as int) + seq![0x2cu8, 0x20u8] + spec_dec(i.jf as int) + seq![
        0x2cu8,
        0x20u8,
        0x30u8,
        0x78u8,
    ] + spec_hex(i.k as int) + seq![0x20u8, 0x7du8, 0x2cu8, 0x0au8]
}

/// The whole rendering: the lines of all instructions, in order.
pub open spec fn spec_dump(s: Seq<BpfInsn>) -> Seq<u8>
    decreases s.len(),
{
    if s.len() == 0 {
        Seq::empty()
    } else {
        spec_dump(s.drop_last()) + spec_line(s.last())
    }
}

/// The ASCII byte for one hexadecimal digit, executable form.
fn hex_digit_byte(d: u8) -> (r: u8)
    requires
        d < 16,
    ensures
        r == hex_digit(d as int),
{
    if d < 10 {
        0x30 + d
    } else {
        0x57 + d
    }
}

/// Append the shortest hexadecimal rendering of `n`.
fn push_hex(out: &mut Vec<u8>, n: u32)
    ensures
        final(out)@ == old(out)@ + spec_hex(n as int),
    decreases n,
{
    if n >= 16 {
        push_hex(out, n / 16);
    }
    let d = hex_digit_byte((n % 16) as u8);
    out.push(d);
    proof {
        if n < 16 {
            assert(old(out)@ + spec_hex(n as int) =~= old(out)@.push(hex_digit(n as int)));
        } else {
            assert(old(out)@ + spec_hex(n as int) =~= (old(out)@ + spec_hex(n as int / 16)).push(
                hex_digit(n as int % 16),
            ));
        }
    }
}

/// Append the shortest decimal rendering of `n`.
fn push_dec(out: &mut Vec<u8>, n: u8)
    ensures
        final(out)@ == old(out)@ + spec_dec(n as int),
    decreases n,
{
    if n >= 10 {
        push_dec(out, n / 10);
    }
    out.push(0x30 + n % 10);
    proof {
        if n < 10 {
            assert(old(out)@ + spec_dec(n as int) =~= old(out)@.push((0x30 + n as int) as u8));
        } else {
            assert(old(out)@ + spec_dec(n as int) =~= (old(out)@ + spec_dec(n as int / 10)).push(
                (0x30 + n as int % 10) as u8,
            ));
        }
    }
}

/// Append one instruction's line.
fn push_line(out: &mut Vec<u8>, i: BpfInsn)
    ensures
        final(out)@ == old(out)@ + spec_line(i),
{
    out.push(0x7b);
    out.push(0x20);
    out.push(0x30);
    out.push(0x78);
    push_hex(out, i.code as u32);
    out.push(0x2c);
    out.push(0x20);
    push_dec(out, i.jt);
    out.push(0x2c);
    out.push(0x20);
    push_dec(out, i.jf);
    out.push(0x2c);
    out.push(0x20);
    out.push(0x30);
    out.push(0x78);
    push_hex(out, i.k);
    out.push(0x20);
    out.push(0x7d);
    out.push(0x2c);
    out.push(0x0a);
    proof {
        assert(out@ =~= old(out)@ + spec_line(i));
    }
}

/// Render every instruction of a program, one line each, by index.
pub fn dump_program(p: &FilterProgram) -> (out: Vec<u8>)
    ensures
        out@ == spec_dump(p@),
{
    let mut out: Vec<u8> = Vec::new();
    let n: usize = p.len();
    let mut i: usize = 0;
    while i < n
        invariant
            i <= n,
            n == p@.len(),
            out@ == spec_dump(p@.take(i as int)),
        decreases n - i,
    {
        let insn = p.instruction(i);
        push_line(&mut out, insn);
        proof {
            assert(p@.take(i as int + 1).drop_last() =~= p@.take(i as int));
            assert(p@.take(i as int + 1).last() == p@[i as int]);
        }
        i = i + 1;
    }
    proof {
        assert(p@.take(n as int) =~= p@);
    }
    out
}

} // verus!
