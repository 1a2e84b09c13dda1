//! Numbers and names as the text that goes into a log line.

use crate::buffer_writer::{BufferFull, BufferWriter};
use vstd::prelude::*;

verus! {

/// A name as it arrives from C: a null pointer, bytes that are not UTF-8, or
/// text.
#[derive(Debug, Clone, Copy)]
pub enum RawName<'a> {
    Null,
    NotUtf8,
    Text(&'a str),
}

impl<'a> RawName<'a> {
    /// The text that stands for the name: the name itself, or the label
    /// given for a null pointer or for bytes that are not UTF-8.
    pub open spec fn spec_or_label(self, if_null: &'a str, if_not_utf8: &'a str) -> &'a str {
        match self {
            RawName::Null => if_null,
            RawName::NotUtf8 => if_not_utf8,
            RawName::Text(s) => s,
        }
    }

    /// The text that stands for the name.
    pub fn or_label(self, if_null: &'a str, if_not_utf8: &'a str) -> (s: &'a str)
        ensures
            s == self.spec_or_label(if_null, if_not_utf8),
    {
        match self {
            RawName::Null => if_null,
            RawName::NotUtf8 => if_not_utf8,
            RawName::Text(s) => s,
        }
    }
}

/// The decimal digits of `n` in ASCII, most significant first, without
/// leading zeros.
pub open spec fn decimal(n: nat) -> Seq<u8>
    decreases n,
{
    if n < 10 {
        seq![(48 + n) as u8]
    } else {
        decimal(n / 10).push((48 + n % 10) as u8)
    }
}

/// The decimal text of `v`: a minus sign before the digits of a negative
/// number.
pub open spec fn signed_decimal(v: int) -> Seq<u8> {
    if v < 0 {
        seq![45u8] + decimal((-v) as nat)
    } else {
        decimal(v as nat)
    }
}

/// The ASCII digit for `d` in base 16, in lower case.
pub open spec fn hex_digit(d: nat) -> u8 {
    if d < 10 {
        (48 + d) as u8
    } else {
        (87 + d) as u8
    }
}

/// The digits of `n` in base 16, most significant first, without leading
/// zeros.
pub open spec fn hex(n: nat) -> Seq<u8>
    decreases n,
{
    if n < 16 {
        seq![hex_digit(n)]
    } else {
        hex(n / 16).push(hex_digit(n % 16))
    }
}

/// The text of an address: `0x` and its digits in base 16.
pub open spec fn pointer_text(addr: usize) -> Seq<u8> {
    seq![48u8, 120u8] + hex(addr as nat)
}

/// Ten to the power `e`.
spec fn pow10(e: nat) -> nat
    decreases e,
{
    if e == 0 {
        1
    } else {
        10 * pow10((e - 1) as nat)
    }
}

/// Sixteen to the power `e`.
spec fn pow16(e: nat) -> nat
    decreases e,
{
    if e == 0 {
        1
    } else {
        16 * pow16((e - 1) as nat)
    }
}

/// Twenty decimal digits hold every 64-bit number.
proof fn lemma_pow10_20()
    ensures
        pow10(20) == 100_000_000_000_000_000_000,
{
    reveal_with_fuel(pow10, 21);
}

/// Sixteen digits in base 16 hold every 64-bit number.
proof fn lemma_pow16_16()
    ensures
        pow16(16) == 0x1_0000_0000_0000_0000,
{
    reveal_with_fuel(pow16, 17);
}

/// Appends the decimal text of `v` if it fits into what is left of the
/// buffer; otherwise writes nothing and reports `BufferFull`.
pub fn write_decimal(w: &mut BufferWriter, v: i64) -> (r: Result<(), BufferFull>)
    requires
        old(w).wf(),
    ensures
        final(w).wf(),
        final(w).capacity() == old(w).capacity(),
        r is Ok <==> old(w)@.len() + signed_decimal(v as int).len() <= old(w).capacity(),
        r is Ok ==> final(w)@ == old(w)@ + signed_decimal(v as int),
        r is Err ==> final(w)@ == old(w)@,
{
    let mut text: [u8; 21] = [0u8; 21];
    let magnitude: u64 = if v < 0 {
        (0 - (v as i128)) as u64
    } else {
        v as u64
    };
    let mut rest: u64 = magnitude;
    let mut at: usize = 21;
    proof {
        lemma_pow10_20();
    }
    while rest >= 10
        invariant
            1 <= at <= 21,
            at < 21 ==> rest >= 1,
            rest < pow10((at - 1) as nat),
            decimal(magnitude as nat) == decimal(rest as nat) + text@.subrange(at as int, 21),
        decreases rest,
    {
        proof {
            reveal_with_fuel(pow10, 3);
        }
        let ghost before = text@;
        at = at - 1;
        text[at] = (48 + rest % 10) as u8;
        assert(text@.subrange(at as int, 21) =~= seq![(48 + rest % 10) as u8] + before.subrange(
            at + 1,
            21,
        ));
        rest = rest / 10;
    }
    proof {
        reveal_with_fuel(pow10, 2);
    }
    let ghost before = text@;
    at = at - 1;
    text[at] = (48 + rest) as u8;
    assert(text@.subrange(at as int, 21) =~= seq![(48 + rest) as u8] + before.subrange(
        at + 1,
        21,
    ));
    if v < 0 {
        let ghost digits = text@;
        at = at - 1;
        text[at] = 45;
        assert(text@.subrange(at as int, 21) =~= seq![45u8] + digits.subrange(at + 1, 21));
    }
    assert(text@.subrange(at as int, 21) == signed_decimal(v as int));
    w.write_bytes(vstd::slice::slice_subrange(text.as_slice(), at, 21))
}

/// Appends the text of the address `addr`, `0x` and its digits in base 16,
/// if it fits into what is left of the buffer; otherwise writes nothing and
/// reports `BufferFull`.
pub fn write_pointer(w: &mut BufferWriter, addr: usize) -> (r: Result<(), BufferFull>)
    requires
        old(w).wf(),
    ensures
        final(w).wf(),
        final(w).capacity() == old(w).capacity(),
        r is Ok <==> old(w)@.len() + pointer_text(addr).len() <= old(w).capacity(),
        r is Ok ==> final(w)@ == old(w)@ + pointer_text(addr),
        r is Err ==> final(w)@ == old(w)@,
{
    let mut text: [u8; 18] = [0u8; 18];
    let mut rest: u64 = addr as u64;
    let mut at: usize = 18;
    proof {
        lemma_pow16_16();
    }
    while rest >= 16
        invariant
            3 <= at <= 18,
            at < 18 ==> rest >= 1,
            rest < pow16((at - 2) as nat),
            hex(addr as nat) == hex(rest as nat) + text@.subrange(at as int, 18),
        decreases rest,
    {
        proof {
            reveal_with_fuel(pow16, 3);
        }
        let ghost before = text@;
        let d: u8 = (rest % 16) as u8;
        at = at - 1;
        text[at] = if d < 10 {
            48 + d
        } else {
            87 + d
        };
        assert(text@.subrange(at as int, 18) =~= seq![hex_digit((rest % 16) as nat)]
            + before.subrange(at + 1, 18));
        rest = rest / 16;
    }
    proof {
        reveal_with_fuel(pow16, 2);
    }
    let ghost before = text@;
    let d: u8 = rest as u8;
    at = at - 1;
    text[at] = if d < 10 {
        48 + d
    } else {
        87 + d
    };
    assert(text@.subrange(at as int, 18) =~= seq![hex_digit(rest as nat)] + before.subrange(
        at + 1,
        18,
    ));
    let ghost digits = text@;
    at = at - 1;
    text[at] = 120;
    at = at - 1;
    text[at] = 48;
    assert(text@.subrange(at as int, 18) =~= seq![48u8, 120u8] + digits.subrange(at + 2, 18));
    w.write_bytes(vstd::slice::slice_subrange(text.as_slice(), at, 18))
}

} // verus!
