//! Open-flag conversion: each guest flag maps to the host's bit of the same
//! meaning, whatever the two bit positions are.
use vstd::prelude::*;
use crate::abi::{
    HOST_O_APPEND, HOST_O_CLOEXEC, HOST_O_CREAT, HOST_O_DIRECTORY, HOST_O_EXCL, HOST_O_NOFOLLOW,
    HOST_O_NONBLOCK, HOST_O_PATH, HOST_O_RDONLY, HOST_O_RDWR, HOST_O_TRUNC, HOST_O_WRONLY, O_ACCMODE,
    O_APPEND, O_CLOEXEC, O_CREAT, O_DIRECTORY, O_EXCL, O_NOFOLLOW, O_NONBLOCK, O_RDONLY, O_RDWR, O_STAT,
    O_TRUNC, O_WRONLY,
};

verus! {

/// Every guest bit that has a host equivalent (the access mode included).
pub const GUEST_KNOWN_OPEN_BITS: u64 = 0xbf0f_0000;

/// The host's access mode for the guest's access-mode bits.
pub open spec fn host_access_mode(flags: u64) -> u64 {
    let m = flags & O_ACCMODE;
    if m == O_RDONLY {
        HOST_O_RDONLY
    } else if m == O_WRONLY {
        HOST_O_WRONLY
    } else if m == O_RDWR {
        HOST_O_RDWR
    } else {
        0
    }
}

/// `host` when `flags` holds the guest bit `guest`, else nothing.
pub open spec fn mapped_bit(flags: u64, guest: u64, host: u64) -> u64 {
    if flags & guest != 0 {
        host
    } else {
        0
    }
}

/// The host open flags for guest open flags: the access mode and each flag
/// with a host equivalent; every other guest bit is dropped.
pub open spec fn host_open_flags(flags: u64) -> u64 {
    host_access_mode(flags)
        | mapped_bit(flags, O_NONBLOCK, HOST_O_NONBLOCK)
        | mapped_bit(flags, O_CREAT, HOST_O_CREAT)
        | mapped_bit(flags, O_EXCL, HOST_O_EXCL)
        | mapped_bit(flags, O_TRUNC, HOST_O_TRUNC)
        | mapped_bit(flags, O_APPEND, HOST_O_APPEND)
        | mapped_bit(flags, O_DIRECTORY, HOST_O_DIRECTORY)
        | mapped_bit(flags, O_NOFOLLOW, HOST_O_NOFOLLOW)
        | mapped_bit(flags, O_CLOEXEC, HOST_O_CLOEXEC)
        | mapped_bit(flags, O_STAT, HOST_O_PATH)
}

/// The permission bits that an open call creates a file with: the low 16 bits
/// of the guest's flags.
pub open spec fn open_mode(flags: u64) -> u64 {
    flags & 0xffff
}

/// The guest flags that have a host equivalent, one bit (or access mode) each.
pub open spec fn is_guest_open_bit(bit: u64) -> bool {
    bit == O_RDONLY || bit == O_WRONLY || bit == O_RDWR || bit == O_NONBLOCK || bit == O_CREAT
        || bit == O_EXCL || bit == O_TRUNC || bit == O_APPEND || bit == O_DIRECTORY || bit
        == O_NOFOLLOW || bit == O_CLOEXEC || bit == O_STAT
}

/// The host value that stands for one guest flag of `is_guest_open_bit`.
pub open spec fn host_bit_of(bit: u64) -> u64 {
    if bit == O_RDONLY {
        HOST_O_RDONLY
    } else if bit == O_WRONLY {
        HOST_O_WRONLY
    } else if bit == O_RDWR {
        HOST_O_RDWR
    } else if bit == O_NONBLOCK {
        HOST_O_NONBLOCK
    } else if bit == O_CREAT {
        HOST_O_CREAT
    } else if bit == O_EXCL {
        HOST_O_EXCL
    } else if bit == O_TRUNC {
        HOST_O_TRUNC
    } else if bit == O_APPEND {
        HOST_O_APPEND
    } else if bit == O_DIRECTORY {
        HOST_O_DIRECTORY
    } else if bit == O_NOFOLLOW {
        HOST_O_NOFOLLOW
    } else if bit == O_CLOEXEC {
        HOST_O_CLOEXEC
    } else {
        HOST_O_PATH
    }
}

fn map_bit(flags: u64, guest: u64, host: u64) -> (r: u64)
    ensures
        r == mapped_bit(flags, guest, host),
{
    if flags & guest != 0 {
        host
    } else {
        0
    }
}

/// Converts guest open flags into the host's open flags and creation mode.
pub fn convert_open(flags: u64) -> (r: (u64, u64))
    ensures
        r.0 == host_open_flags(flags),
        r.1 == open_mode(flags),
{
    let m = flags & O_ACCMODE;
    let mut lflags: u64 = if m == O_RDONLY {
        HOST_O_RDONLY
    } else if m == O_WRONLY {
        HOST_O_WRONLY
    } else if m == O_RDWR {
        HOST_O_RDWR
    } else {
        0
    };
    lflags = lflags | map_bit(flags, O_NONBLOCK, HOST_O_NONBLOCK);
    lflags = lflags | map_bit(flags, O_CREAT, HOST_O_CREAT);
    lflags = lflags | map_bit(flags, O_EXCL, HOST_O_EXCL);
    lflags = lflags | map_bit(flags, O_TRUNC, HOST_O_TRUNC);
    lflags = lflags | map_bit(flags, O_APPEND, HOST_O_APPEND);
    lflags = lflags | map_bit(flags, O_DIRECTORY, HOST_O_DIRECTORY);
    lflags = lflags | map_bit(flags, O_NOFOLLOW, HOST_O_NOFOLLOW);
    lflags = lflags | map_bit(flags, O_CLOEXEC, HOST_O_CLOEXEC);
    lflags = lflags | map_bit(flags, O_STAT, HOST_O_PATH);
    (lflags, flags & 0xffff)
}

/// The guest bits that the conversion drops: neither a flag with a host
/// equivalent nor part of the creation mode.
pub open spec fn dropped_open_bits_spec(flags: u64) -> u64 {
    flags & !(GUEST_KNOWN_OPEN_BITS | 0xffff)
}

/// The guest bits that `convert_open` drops, so that the caller can report
/// them.
pub fn dropped_open_bits(flags: u64) -> (r: u64)
    ensures
        r == dropped_open_bits_spec(flags),
{
    flags & !(GUEST_KNOWN_OPEN_BITS | 0xffff)
}

/// A guest flag with a host equivalent, set alone, converts to exactly its
/// host bit and no other.
pub proof fn lemma_single_open_flag(bit: u64)
    by (bit_vector)
    requires
        is_guest_open_bit(bit),
    ensures
        host_open_flags(bit) == host_bit_of(bit),
{
}

/// Guest bits without a host equivalent are dropped: adding them to any flags
/// leaves the converted host flags unchanged.
pub proof fn lemma_unknown_open_bits_dropped(flags: u64, unknown: u64)
    by (bit_vector)
    requires
        unknown & GUEST_KNOWN_OPEN_BITS == 0,
    ensures
        host_open_flags(flags | unknown) == host_open_flags(flags),
{
}

} // verus!
