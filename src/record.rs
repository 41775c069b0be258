//! Rendering of the guest's small structures, read from the bytes at a pointer
//! argument, as `Name { field: value, ... }`. Each structure is a table of
//! named fields at offsets.
use vstd::prelude::*;
use vstd::string::StringSliceAdditionalSpecFns;
use crate::bytes::{read_u16, read_u32, read_u64, u16_le, u32_le, u64_le};
use crate::fmt::{dec, push_all, push_dec, push_signed, signed};

verus! {

/// How a field is stored and shown.
#[derive(Clone, Copy, Debug, PartialEq, Eq, Structural)]
pub enum FieldKind {
    U16,
    U32,
    U64,
    I32,
    I64,
}

/// A named field at an offset of a structure.
#[derive(Clone, Copy, Debug)]
pub struct Field {
    pub name: &'static str,
    pub offset: usize,
    pub kind: FieldKind,
}

/// The guest structures that the decoder shows field by field.
#[derive(Clone, Copy, Debug, PartialEq, Eq, Structural)]
pub enum Layout {
    Stat,
    TimeSpec,
    MemoryMap,
}

pub open spec fn width(k: FieldKind) -> nat {
    match k {
        FieldKind::U16 => 2,
        FieldKind::U32 => 4,
        FieldKind::I32 => 4,
        FieldKind::U64 => 8,
        FieldKind::I64 => 8,
    }
}

pub open spec fn layout_name(l: Layout) -> &'static str {
    match l {
        Layout::Stat => "Stat",
        Layout::TimeSpec => "TimeSpec",
        Layout::MemoryMap => "Map",
    }
}

/// Bytes of one structure.
pub open spec fn layout_size(l: Layout) -> u64 {
    match l {
        Layout::Stat => 104,
        Layout::TimeSpec => 16,
        Layout::MemoryMap => 24,
    }
}

#[verifier::opaque]
pub open spec fn layout_fields(l: Layout) -> Seq<Field> {
    match l {
        Layout::Stat => seq![
            Field { name: "st_dev", offset: 0, kind: FieldKind::U64 },
            Field { name: "st_ino", offset: 8, kind: FieldKind::U64 },
            Field { name: "st_mode", offset: 16, kind: FieldKind::U16 },
            Field { name: "st_nlink", offset: 20, kind: FieldKind::U32 },
            Field { name: "st_uid", offset: 24, kind: FieldKind::U32 },
            Field { name: "st_gid", offset: 28, kind: FieldKind::U32 },
            Field { name: "st_size", offset: 32, kind: FieldKind::U64 },
            Field { name: "st_blksize", offset: 40, kind: FieldKind::U32 },
            Field { name: "st_blocks", offset: 48, kind: FieldKind::U64 },
            Field { name: "st_mtime", offset: 56, kind: FieldKind::U64 },
            Field { name: "st_mtime_nsec", offset: 64, kind: FieldKind::U32 },
            Field { name: "st_atime", offset: 72, kind: FieldKind::U64 },
            Field { name: "st_atime_nsec", offset: 80, kind: FieldKind::U32 },
            Field { name: "st_ctime", offset: 88, kind: FieldKind::U64 },
            Field { name: "st_ctime_nsec", offset: 96, kind: FieldKind::U32 },
        ],
        Layout::TimeSpec => seq![
            Field { name: "tv_sec", offset: 0, kind: FieldKind::I64 },
            Field { name: "tv_nsec", offset: 8, kind: FieldKind::I32 },
        ],
        Layout::MemoryMap => seq![
            Field { name: "offset", offset: 0, kind: FieldKind::U64 },
            Field { name: "size", offset: 8, kind: FieldKind::U64 },
            Field { name: "flags", offset: 16, kind: FieldKind::U64 },
        ],
    }
}

pub fn layout_size_of(l: Layout) -> (r: u64)
    ensures
        r == layout_size(l),
{
    match l {
        Layout::Stat => 104,
        Layout::TimeSpec => 16,
        Layout::MemoryMap => 24,
    }
}

fn layout_name_of(l: Layout) -> (r: &'static str)
    ensures
        r == layout_name(l),
{
    match l {
        Layout::Stat => "Stat",
        Layout::TimeSpec => "TimeSpec",
        Layout::MemoryMap => "Map",
    }
}

fn layout_fields_of(l: Layout) -> (r: Vec<Field>)
    ensures
        r@ == layout_fields(l),
{
    reveal(layout_fields);
    match l {
        Layout::Stat => vec![
            Field { name: "st_dev", offset: 0, kind: FieldKind::U64 },
            Field { name: "st_ino", offset: 8, kind: FieldKind::U64 },
            Field { name: "st_mode", offset: 16, kind: FieldKind::U16 },
            Field { name: "st_nlink", offset: 20, kind: FieldKind::U32 },
            Field { name: "st_uid", offset: 24, kind: FieldKind::U32 },
            Field { name: "st_gid", offset: 28, kind: FieldKind::U32 },
            Field { name: "st_size", offset: 32, kind: FieldKind::U64 },
            Field { name: "st_blksize", offset: 40, kind: FieldKind::U32 },
            Field { name: "st_blocks", offset: 48, kind: FieldKind::U64 },
            Field { name: "st_mtime", offset: 56, kind: FieldKind::U64 },
            Field { name: "st_mtime_nsec", offset: 64, kind: FieldKind::U32 },
            Field { name: "st_atime", offset: 72, kind: FieldKind::U64 },
            Field { name: "st_atime_nsec", offset: 80, kind: FieldKind::U32 },
            Field { name: "st_ctime", offset: 88, kind: FieldKind::U64 },
            Field { name: "st_ctime_nsec", offset: 96, kind: FieldKind::U32 },
        ],
        Layout::TimeSpec => vec![
            Field { name: "tv_sec", offset: 0, kind: FieldKind::I64 },
            Field { name: "tv_nsec", offset: 8, kind: FieldKind::I32 },
        ],
        Layout::MemoryMap => vec![
            Field { name: "offset", offset: 0, kind: FieldKind::U64 },
            Field { name: "size", offset: 8, kind: FieldKind::U64 },
            Field { name: "flags", offset: 16, kind: FieldKind::U64 },
        ],
    }
}

/// The value of a field stored at `at` in `b` (`?` where `b` is too short).
pub open spec fn value_text(b: Seq<u8>, at: int, k: FieldKind) -> Seq<u8> {
    if at + width(k) > b.len() {
        seq![63u8]
    } else {
        match k {
            FieldKind::U16 => dec(u16_le(b, at) as u64),
            FieldKind::U32 => dec(u32_le(b, at) as u64),
            FieldKind::U64 => dec(u64_le(b, at)),
            FieldKind::I32 => signed(u32_le(b, at) as i32 as i64),
            FieldKind::I64 => signed(u64_le(b, at) as i64),
        }
    }
}

fn push_value(out: &mut Vec<u8>, b: &[u8], at: usize, k: FieldKind)
    ensures
        final(out)@ == old(out)@ + value_text(b@, at as int, k),
{
    let w: usize = match k {
        FieldKind::U16 => 2,
        FieldKind::U32 => 4,
        FieldKind::I32 => 4,
        FieldKind::U64 => 8,
        FieldKind::I64 => 8,
    };
    if at > b.len() || w > b.len() - at {
        out.push(63u8);
        assert(final(out)@ =~= old(out)@ + value_text(b@, at as int, k));
        return;
    }
    match k {
        FieldKind::U16 => push_dec(out, read_u16(b, at) as u64),
        FieldKind::U32 => push_dec(out, read_u32(b, at) as u64),
        FieldKind::U64 => push_dec(out, read_u64(b, at)),
        FieldKind::I32 => push_signed(out, read_u32(b, at) as i32 as i64),
        FieldKind::I64 => push_signed(out, read_u64(b, at) as i64),
    }
}

/// The first `n` fields of a structure stored at `base`, separated by `, `.
pub open spec fn fields_text(b: Seq<u8>, base: int, fs: Seq<Field>, n: nat) -> Seq<u8>
    decreases n,
{
    if n == 0 {
        Seq::empty()
    } else {
        let sep = if n > 1 {
            ", ".spec_bytes()
        } else {
            Seq::empty()
        };
        let f = fs[n - 1];
        fields_text(b, base, fs, (n - 1) as nat) + sep + f.name.spec_bytes() + ": ".spec_bytes()
            + value_text(b, base + f.offset, f.kind)
    }
}

/// The structure stored at `base`.
pub open spec fn record_text(b: Seq<u8>, base: int, l: Layout) -> Seq<u8> {
    layout_name(l).spec_bytes() + " { ".spec_bytes() + fields_text(
        b,
        base,
        layout_fields(l),
        layout_fields(l).len(),
    ) + " }".spec_bytes()
}

fn push_record(out: &mut Vec<u8>, b: &[u8], base: usize, l: Layout)
    ensures
        final(out)@ == old(out)@ + record_text(b@, base as int, l),
{
    push_all(out, layout_name_of(l).as_bytes());
    push_all(out, " { ".as_bytes());
    let ghost start = out@;
    let fs = layout_fields_of(l);
    let mut i: usize = 0;
    while i < fs.len()
        invariant
            fs@ == layout_fields(l),
            i <= fs@.len(),
            out@ == start + fields_text(b@, base as int, fs@, i as nat),
        decreases fs@.len() - i,
    {
        if i > 0 {
            push_all(out, ", ".as_bytes());
        }
        let f = fs[i];
        push_all(out, f.name.as_bytes());
        push_all(out, ": ".as_bytes());
        match base.checked_add(f.offset) {
            Some(at) => push_value(out, b, at, f.kind),
            None => {
                let blen = b.len();
                assert(value_text(b@, base + f.offset, f.kind) == seq![63u8]);
                out.push(63u8);
            },
        }
        i = i + 1;
        assert(out@ =~= start + fields_text(b@, base as int, fs@, i as nat));
    }
    push_all(out, " }".as_bytes());
    assert(final(out)@ =~= old(out)@ + record_text(b@, base as int, l));
}

/// The first `n` structures stored one after another, separated by `, `.
pub open spec fn records_list(b: Seq<u8>, l: Layout, n: nat) -> Seq<u8>
    decreases n,
{
    if n == 0 {
        Seq::empty()
    } else {
        let sep = if n > 1 {
            ", ".spec_bytes()
        } else {
            Seq::empty()
        };
        records_list(b, l, (n - 1) as nat) + sep + record_text(
            b,
            (n - 1) * layout_size(l),
            l,
        )
    }
}

/// The whole structures held in `b`, as a bracketed list.
pub open spec fn records(b: Seq<u8>, l: Layout) -> Seq<u8> {
    seq![91u8] + records_list(b, l, b.len() / (layout_size(l) as nat)) + seq![93u8]
}

pub fn push_records(out: &mut Vec<u8>, b: &[u8], l: Layout)
    ensures
        final(out)@ == old(out)@ + records(b@, l),
{
    out.push(91u8);
    let ghost start = out@;
    let size = layout_size_of(l) as usize;
    let len = b.len();
    let n = len / size;
    let mut i: usize = 0;
    while i < n
        invariant
            size == layout_size(l),
            size > 0,
            len == b@.len(),
            n == len / size,
            i <= n,
            out@ == start + records_list(b@, l, i as nat),
        decreases n - i,
    {
        if i > 0 {
            push_all(out, ", ".as_bytes());
        }
        assert(size * i + size <= len) by (nonlinear_arith)
            requires
                i < n,
                n == len / size,
                size > 0,
        ;
        push_record(out, b, size * i, l);
        i = i + 1;
        assert(out@ =~= start + records_list(b@, l, i as nat));
    }
    out.push(93u8);
    assert(final(out)@ =~= old(out)@ + records(b@, l));
}

} // verus!
