//! Rendering of trace text as ASCII bytes: numbers in decimal, hexadecimal and
//! octal, escaped byte strings, lists of words.
use vstd::prelude::*;
use crate::bytes::{read_u64, u64_le};

verus! {

/// The ASCII digit (lower-case letter above nine) for `d`.
pub open spec fn digit_char(d: nat) -> u8 {
    if d < 10 {
        (48 + d) as u8
    } else {
        (87 + d) as u8
    }
}

/// The digits of `v` in `base`, most significant first, without leading zeros.
pub open spec fn digits(v: nat, base: nat) -> Seq<u8>
    decreases v via digits_decreases
{
    if base < 2 || v < base {
        seq![digit_char(v % base)]
    } else {
        digits(v / base, base).push(digit_char(v % base))
    }
}

#[via_fn]
proof fn digits_decreases(v: nat, base: nat) {
    if !(base < 2 || v < base) {
        assert(v / base < v) by (nonlinear_arith)
            requires
                base >= 2,
                v >= base,
        ;
    }
}

pub open spec fn dec(v: u64) -> Seq<u8> {
    digits(v as nat, 10)
}

/// `0x` and the hexadecimal digits.
pub open spec fn hex(v: u64) -> Seq<u8> {
    seq![48u8, 120u8] + digits(v as nat, 16)
}

/// `0o` and the octal digits.
pub open spec fn oct(v: u64) -> Seq<u8> {
    seq![48u8, 111u8] + digits(v as nat, 8)
}

/// Decimal of a signed value.
pub open spec fn signed(v: i64) -> Seq<u8> {
    if v < 0 {
        seq![45u8] + digits((-v) as nat, 10)
    } else {
        digits(v as nat, 10)
    }
}

fn digit(d: u64) -> (r: u8)
    requires
        d < 16,
    ensures
        r == digit_char(d as nat),
{
    if d < 10 {
        (48 + d) as u8
    } else {
        (87 + d) as u8
    }
}

pub fn push_digits(out: &mut Vec<u8>, v: u64, base: u64)
    requires
        2 <= base <= 16,
    ensures
        final(out)@ == old(out)@ + digits(v as nat, base as nat),
    decreases v,
{
    if v >= base {
        assert(v / base < v) by (nonlinear_arith)
            requires
                base >= 2,
                v >= base,
        ;
        push_digits(out, v / base, base);
    }
    out.push(digit(v % base));
    assert(final(out)@ =~= old(out)@ + digits(v as nat, base as nat));
}

pub fn push_dec(out: &mut Vec<u8>, v: u64)
    ensures
        final(out)@ == old(out)@ + dec(v),
{
    push_digits(out, v, 10);
}

pub fn push_hex(out: &mut Vec<u8>, v: u64)
    ensures
        final(out)@ == old(out)@ + hex(v),
{
    out.push(48u8);
    out.push(120u8);
    push_digits(out, v, 16);
    assert(final(out)@ =~= old(out)@ + hex(v));
}

pub fn push_oct(out: &mut Vec<u8>, v: u64)
    ensures
        final(out)@ == old(out)@ + oct(v),
{
    out.push(48u8);
    out.push(111u8);
    push_digits(out, v, 8);
    assert(final(out)@ =~= old(out)@ + oct(v));
}

pub fn push_signed(out: &mut Vec<u8>, v: i64)
    ensures
        final(out)@ == old(out)@ + signed(v),
{
    if v < 0 {
        out.push(45u8);
        let m: u64 = (-(v + 1)) as u64 + 1;
        push_digits(out, m, 10);
        assert(final(out)@ =~= old(out)@ + signed(v));
    } else {
        push_digits(out, v as u64, 10);
    }
}

/// Appends the bytes of `s`.
pub fn push_all(out: &mut Vec<u8>, s: &[u8])
    ensures
        final(out)@ == old(out)@ + s@,
{
    let mut i: usize = 0;
    while i < s.len()
        invariant
            i <= s@.len(),
            out@ == old(out)@ + s@.subrange(0, i as int),
        decreases s@.len() - i,
    {
        out.push(s[i]);
        i = i + 1;
        assert(out@ =~= old(out)@ + s@.subrange(0, i as int));
    }
    assert(s@.subrange(0, s@.len() as int) =~= s@);
}

/// How a byte is shown in a quoted string: a backslash escape for tab,
/// carriage return, newline, backslash and quotes, the byte itself if it is
/// printable, else `\x` and two hexadecimal digits.
pub open spec fn escape_spec(c: u8) -> Seq<u8> {
    if c == 9 {
        seq![92u8, 116u8]
    } else if c == 13 {
        seq![92u8, 114u8]
    } else if c == 10 {
        seq![92u8, 110u8]
    } else if c == 92 {
        seq![92u8, 92u8]
    } else if c == 39 {
        seq![92u8, 39u8]
    } else if c == 34 {
        seq![92u8, 34u8]
    } else if 0x20 <= c <= 0x7e {
        seq![c]
    } else {
        seq![92u8, 120u8, digit_char((c / 16) as nat), digit_char((c % 16) as nat)]
    }
}

/// The escaped bytes of `s`, one after another.
pub open spec fn escaped(s: Seq<u8>) -> Seq<u8>
    decreases s.len(),
{
    if s.len() == 0 {
        Seq::empty()
    } else {
        escaped(s.drop_last()) + escape_spec(s.last())
    }
}

/// `s` escaped, between double quotes.
pub open spec fn quoted(s: Seq<u8>) -> Seq<u8> {
    seq![34u8] + escaped(s) + seq![34u8]
}

/// The bytes that show one byte, handed out one at a time.
pub struct EscapeDefault {
    start: usize,
    end: usize,
    data: [u8; 4],
}

impl EscapeDefault {
    /// The bytes not yet handed out.
    pub closed spec fn view(&self) -> Seq<u8> {
        self.data@.subrange(self.start as int, self.end as int)
    }

    pub closed spec fn wf(&self) -> bool {
        self.start <= self.end <= 4
    }

    /// The next byte, if any is left.
    pub fn next(&mut self) -> (r: Option<u8>)
        requires
            old(self).wf(),
        ensures
            final(self).wf(),
            old(self)@.len() == 0 ==> r is None && final(self)@ == old(self)@,
            old(self)@.len() > 0 ==> r == Some(old(self)@[0]) && final(self)@ == old(
                self,
            )@.drop_first(),
    {
        if self.start < self.end {
            let b = self.data[self.start];
            self.start = self.start + 1;
            assert(self@ =~= old(self)@.drop_first());
            Some(b)
        } else {
            None
        }
    }

    /// How many bytes are left, as a lower and an upper bound.
    pub fn size_hint(&self) -> (r: (usize, Option<usize>))
        requires
            self.wf(),
        ensures
            r == (self@.len() as usize, Some(self@.len() as usize)),
    {
        let n = self.end - self.start;
        (n, Some(n))
    }
}

/// The bytes that show `c` in a quoted string.
pub fn escape_default(c: u8) -> (r: EscapeDefault)
    ensures
        r.wf(),
        r@ == escape_spec(c),
{
    let (data, len): ([u8; 4], usize) = if c == 9 {
        ([92u8, 116u8, 0, 0], 2)
    } else if c == 13 {
        ([92u8, 114u8, 0, 0], 2)
    } else if c == 10 {
        ([92u8, 110u8, 0, 0], 2)
    } else if c == 92 {
        ([92u8, 92u8, 0, 0], 2)
    } else if c == 39 {
        ([92u8, 39u8, 0, 0], 2)
    } else if c == 34 {
        ([92u8, 34u8, 0, 0], 2)
    } else if 0x20 <= c && c <= 0x7e {
        ([c, 0, 0, 0], 1)
    } else {
        ([92u8, 120u8, digit((c / 16) as u64), digit((c % 16) as u64)], 4)
    };
    let r = EscapeDefault { start: 0, end: len, data };
    assert(r@ =~= escape_spec(c));
    r
}

/// Appends `s` escaped and between double quotes.
pub fn push_quoted(out: &mut Vec<u8>, s: &[u8])
    ensures
        final(out)@ == old(out)@ + quoted(s@),
{
    out.push(34u8);
    let ghost start = out@;
    let mut i: usize = 0;
    while i < s.len()
        invariant
            i <= s@.len(),
            out@ == start + escaped(s@.subrange(0, i as int)),
        decreases s@.len() - i,
    {
        let mut e = escape_default(s[i]);
        let ghost before = out@;
        let (n, _) = e.size_hint();
        let mut k: usize = 0;
        while k < n
            invariant
                e.wf(),
                k <= n,
                e@.len() == n - k,
                out@ + e@ == before + escape_spec(s@[i as int]),
            decreases n - k,
        {
            let ghost rest = e@;
            match e.next() {
                Some(ch) => {
                    assert(out@.push(ch) + e@ =~= out@ + rest);
                    out.push(ch);
                },
                None => {},
            }
            k = k + 1;
        }
        assert(e@.len() == 0);
        assert(out@ + e@ =~= out@);
        assert(s@.subrange(0, i + 1).drop_last() =~= s@.subrange(0, i as int));
        assert(out@ =~= before + escape_spec(s@[i as int]));
        i = i + 1;
        assert(out@ =~= start + escaped(s@.subrange(0, i as int)));
    }
    assert(s@.subrange(0, s@.len() as int) =~= s@);
    out.push(34u8);
    assert(final(out)@ =~= old(out)@ + quoted(s@));
}

/// The little-endian words held in `b`, in decimal, separated by `, `.
pub open spec fn words_list(b: Seq<u8>, n: nat) -> Seq<u8>
    decreases n,
{
    if n == 0 {
        Seq::empty()
    } else if n == 1 {
        dec(u64_le(b, 0))
    } else {
        words_list(b, (n - 1) as nat) + seq![44u8, 32u8] + dec(u64_le(b, 8 * (n - 1)))
    }
}

/// The whole words of `b` as a bracketed list.
pub open spec fn words(b: Seq<u8>) -> Seq<u8> {
    seq![91u8] + words_list(b, b.len() / 8) + seq![93u8]
}

pub fn push_words(out: &mut Vec<u8>, b: &[u8])
    ensures
        final(out)@ == old(out)@ + words(b@),
{
    out.push(91u8);
    let ghost start = out@;
    let len = b.len();
    let n = len / 8;
    let mut i: usize = 0;
    while i < n
        invariant
            n == b@.len() / 8,
            len == b@.len(),
            i <= n,
            out@ == start + words_list(b@, i as nat),
        decreases n - i,
    {
        if i > 0 {
            out.push(44u8);
            out.push(32u8);
        }
        assert(8 * i + 8 <= len) by (nonlinear_arith)
            requires
                i < n,
                n == len / 8,
        ;
        push_dec(out, read_u64(b, 8 * i));
        i = i + 1;
        assert(out@ =~= start + words_list(b@, i as nat));
    }
    out.push(93u8);
    assert(final(out)@ =~= old(out)@ + words(b@));
}

} // verus!
