//! The two stat layouts, each declared field by field, the conversion of the
//! host's into the guest's, and the byte encodings of both.
use vstd::prelude::*;
use crate::bytes::{
    lemma_u16_round_trip, lemma_u32_round_trip, lemma_u64_round_trip, push_u16, push_u32, push_u64,
    push_zeros, read_u16, read_u32, read_u64, u16_bytes, u16_le, u32_bytes, u32_le, u64_bytes,
    u64_le, zeros,
};

verus! {

/// Bytes of the host's stat structure.
pub const HOST_STAT_SIZE: u64 = 144;

/// Bytes of the guest's stat structure.
pub const GUEST_STAT_SIZE: u64 = 104;

/// The host's stat structure (Linux, x86_64).
#[derive(Clone, Copy, Debug, PartialEq, Eq, Structural)]
pub struct HostStat {
    pub st_dev: u64,
    pub st_ino: u64,
    pub st_nlink: u64,
    pub st_mode: u32,
    pub st_uid: u32,
    pub st_gid: u32,
    pub st_rdev: u64,
    pub st_size: i64,
    pub st_blksize: i64,
    pub st_blocks: i64,
    pub st_atime: i64,
    pub st_atime_nsec: i64,
    pub st_mtime: i64,
    pub st_mtime_nsec: i64,
    pub st_ctime: i64,
    pub st_ctime_nsec: i64,
}

/// The guest's stat structure (Redox).
#[derive(Clone, Copy, Debug, PartialEq, Eq, Structural)]
pub struct Stat {
    pub st_dev: u64,
    pub st_ino: u64,
    pub st_mode: u16,
    pub st_nlink: u32,
    pub st_uid: u32,
    pub st_gid: u32,
    pub st_size: u64,
    pub st_blksize: u32,
    pub st_blocks: u64,
    pub st_mtime: u64,
    pub st_mtime_nsec: u32,
    pub st_atime: u64,
    pub st_atime_nsec: u32,
    pub st_ctime: u64,
    pub st_ctime_nsec: u32,
}

/// The host structure stored at the start of `s`.
pub open spec fn host_stat_at(s: Seq<u8>) -> HostStat {
    HostStat {
        st_dev: u64_le(s, 0),
        st_ino: u64_le(s, 8),
        st_nlink: u64_le(s, 16),
        st_mode: u32_le(s, 24),
        st_uid: u32_le(s, 28),
        st_gid: u32_le(s, 32),
        st_rdev: u64_le(s, 40),
        st_size: u64_le(s, 48) as i64,
        st_blksize: u64_le(s, 56) as i64,
        st_blocks: u64_le(s, 64) as i64,
        st_atime: u64_le(s, 72) as i64,
        st_atime_nsec: u64_le(s, 80) as i64,
        st_mtime: u64_le(s, 88) as i64,
        st_mtime_nsec: u64_le(s, 96) as i64,
        st_ctime: u64_le(s, 104) as i64,
        st_ctime_nsec: u64_le(s, 112) as i64,
    }
}

/// The guest structure stored at the start of `s`.
pub open spec fn guest_stat_at(s: Seq<u8>) -> Stat {
    Stat {
        st_dev: u64_le(s, 0),
        st_ino: u64_le(s, 8),
        st_mode: u16_le(s, 16),
        st_nlink: u32_le(s, 20),
        st_uid: u32_le(s, 24),
        st_gid: u32_le(s, 28),
        st_size: u64_le(s, 32),
        st_blksize: u32_le(s, 40),
        st_blocks: u64_le(s, 48),
        st_mtime: u64_le(s, 56),
        st_mtime_nsec: u32_le(s, 64),
        st_atime: u64_le(s, 72),
        st_atime_nsec: u32_le(s, 80),
        st_ctime: u64_le(s, 88),
        st_ctime_nsec: u32_le(s, 96),
    }
}

/// The guest structure's bytes, padding included (as zeros).
pub open spec fn guest_stat_bytes(g: Stat) -> Seq<u8> {
    u64_bytes(g.st_dev) + u64_bytes(g.st_ino) + u16_bytes(g.st_mode) + zeros(2) + u32_bytes(
        g.st_nlink,
    ) + u32_bytes(g.st_uid) + u32_bytes(g.st_gid) + u64_bytes(g.st_size) + u32_bytes(g.st_blksize)
        + zeros(4) + u64_bytes(g.st_blocks) + u64_bytes(g.st_mtime) + u32_bytes(g.st_mtime_nsec)
        + zeros(4) + u64_bytes(g.st_atime) + u32_bytes(g.st_atime_nsec) + zeros(4) + u64_bytes(
        g.st_ctime,
    ) + u32_bytes(g.st_ctime_nsec) + zeros(4)
}

/// The guest's view of a host structure: each field converted to the guest's
/// width.
pub open spec fn host_to_guest(h: HostStat) -> Stat {
    Stat {
        st_dev: h.st_dev,
        st_ino: h.st_ino,
        st_mode: h.st_mode as u16,
        st_nlink: h.st_nlink as u32,
        st_uid: h.st_uid,
        st_gid: h.st_gid,
        st_size: h.st_size as u64,
        st_blksize: h.st_blksize as u32,
        st_blocks: h.st_blocks as u64,
        st_mtime: h.st_mtime as u64,
        st_mtime_nsec: h.st_mtime_nsec as u32,
        st_atime: h.st_atime as u64,
        st_atime_nsec: h.st_atime_nsec as u32,
        st_ctime: h.st_ctime as u64,
        st_ctime_nsec: h.st_ctime_nsec as u32,
    }
}

/// The host structure that holds the same values as a guest structure.
pub open spec fn guest_to_host(g: Stat) -> HostStat {
    HostStat {
        st_dev: g.st_dev,
        st_ino: g.st_ino,
        st_nlink: g.st_nlink as u64,
        st_mode: g.st_mode as u32,
        st_uid: g.st_uid,
        st_gid: g.st_gid,
        st_rdev: 0,
        st_size: g.st_size as i64,
        st_blksize: g.st_blksize as i64,
        st_blocks: g.st_blocks as i64,
        st_atime: g.st_atime as i64,
        st_atime_nsec: g.st_atime_nsec as i64,
        st_mtime: g.st_mtime as i64,
        st_mtime_nsec: g.st_mtime_nsec as i64,
        st_ctime: g.st_ctime as i64,
        st_ctime_nsec: g.st_ctime_nsec as i64,
    }
}

/// Reads the host structure from the first bytes of `lstat`.
pub fn parse_host_stat(lstat: &[u8]) -> (r: HostStat)
    requires
        lstat@.len() >= HOST_STAT_SIZE,
    ensures
        r == host_stat_at(lstat@),
{
    HostStat {
        st_dev: read_u64(lstat, 0),
        st_ino: read_u64(lstat, 8),
        st_nlink: read_u64(lstat, 16),
        st_mode: read_u32(lstat, 24),
        st_uid: read_u32(lstat, 28),
        st_gid: read_u32(lstat, 32),
        st_rdev: read_u64(lstat, 40),
        st_size: read_u64(lstat, 48) as i64,
        st_blksize: read_u64(lstat, 56) as i64,
        st_blocks: read_u64(lstat, 64) as i64,
        st_atime: read_u64(lstat, 72) as i64,
        st_atime_nsec: read_u64(lstat, 80) as i64,
        st_mtime: read_u64(lstat, 88) as i64,
        st_mtime_nsec: read_u64(lstat, 96) as i64,
        st_ctime: read_u64(lstat, 104) as i64,
        st_ctime_nsec: read_u64(lstat, 112) as i64,
    }
}

/// Converts a host structure into the guest's, field by field.
pub fn host_stat_to_guest(h: &HostStat) -> (r: Stat)
    ensures
        r == host_to_guest(*h),
{
    Stat {
        st_dev: h.st_dev,
        st_ino: h.st_ino,
        st_mode: h.st_mode as u16,
        st_nlink: h.st_nlink as u32,
        st_uid: h.st_uid,
        st_gid: h.st_gid,
        st_size: h.st_size as u64,
        st_blksize: h.st_blksize as u32,
        st_blocks: h.st_blocks as u64,
        st_mtime: h.st_mtime as u64,
        st_mtime_nsec: h.st_mtime_nsec as u32,
        st_atime: h.st_atime as u64,
        st_atime_nsec: h.st_atime_nsec as u32,
        st_ctime: h.st_ctime as u64,
        st_ctime_nsec: h.st_ctime_nsec as u32,
    }
}

/// Reads the host structure that the host kernel wrote and converts it into
/// the guest's.
pub fn convert_stat(lstat: &[u8]) -> (r: Stat)
    requires
        lstat@.len() >= HOST_STAT_SIZE,
    ensures
        r == host_to_guest(host_stat_at(lstat@)),
{
    let h = parse_host_stat(lstat);
    host_stat_to_guest(&h)
}

impl Stat {
    /// The guest structure's bytes, as the guest reads them.
    pub fn to_bytes(&self) -> (r: Vec<u8>)
        ensures
            r@ == guest_stat_bytes(*self),
            r@.len() == GUEST_STAT_SIZE,
    {
        let mut out: Vec<u8> = Vec::new();
        push_u64(&mut out, self.st_dev);
        push_u64(&mut out, self.st_ino);
        push_u16(&mut out, self.st_mode);
        push_zeros(&mut out, 2);
        push_u32(&mut out, self.st_nlink);
        push_u32(&mut out, self.st_uid);
        push_u32(&mut out, self.st_gid);
        push_u64(&mut out, self.st_size);
        push_u32(&mut out, self.st_blksize);
        push_zeros(&mut out, 4);
        push_u64(&mut out, self.st_blocks);
        push_u64(&mut out, self.st_mtime);
        push_u32(&mut out, self.st_mtime_nsec);
        push_zeros(&mut out, 4);
        push_u64(&mut out, self.st_atime);
        push_u32(&mut out, self.st_atime_nsec);
        push_zeros(&mut out, 4);
        push_u64(&mut out, self.st_ctime);
        push_u32(&mut out, self.st_ctime_nsec);
        push_zeros(&mut out, 4);
        out
    }

    /// Reads a guest structure from the first bytes of `b`.
    pub fn from_bytes(b: &[u8]) -> (r: Stat)
        requires
            b@.len() >= GUEST_STAT_SIZE,
        ensures
            r == guest_stat_at(b@),
    {
        Stat {
            st_dev: read_u64(b, 0),
            st_ino: read_u64(b, 8),
            st_mode: read_u16(b, 16),
            st_nlink: read_u32(b, 20),
            st_uid: read_u32(b, 24),
            st_gid: read_u32(b, 28),
            st_size: read_u64(b, 32),
            st_blksize: read_u32(b, 40),
            st_blocks: read_u64(b, 48),
            st_mtime: read_u64(b, 56),
            st_mtime_nsec: read_u32(b, 64),
            st_atime: read_u64(b, 72),
            st_atime_nsec: read_u32(b, 80),
            st_ctime: read_u64(b, 88),
            st_ctime_nsec: read_u32(b, 96),
        }
    }
}

proof fn lemma_widen_round_trip(a: u64, b: u32, c: u16)
    by (bit_vector)
    ensures
        (a as i64) as u64 == a,
        (b as i64) as u32 == b,
        (b as u64) as u32 == b,
        (c as u32) as u16 == c,
{
}

/// Converting the host structure that holds a guest structure's values back
/// into the guest's layout loses no field.
pub proof fn lemma_stat_round_trip(g: Stat)
    ensures
        host_to_guest(guest_to_host(g)) == g,
{
    lemma_widen_round_trip(g.st_size, g.st_nlink, g.st_mode);
    lemma_widen_round_trip(g.st_blocks, g.st_blksize, 0);
    lemma_widen_round_trip(g.st_mtime, g.st_mtime_nsec, 0);
    lemma_widen_round_trip(g.st_atime, g.st_atime_nsec, 0);
    lemma_widen_round_trip(g.st_ctime, g.st_ctime_nsec, 0);
}

/// Reading back the bytes of a guest structure gives the same structure.
pub proof fn lemma_guest_stat_bytes_round_trip(g: Stat)
    ensures
        guest_stat_at(guest_stat_bytes(g)) == g,
{
    let s = guest_stat_bytes(g);
    assert(s.subrange(0, 8) =~= u64_bytes(g.st_dev));
    assert(s.subrange(8, 16) =~= u64_bytes(g.st_ino));
    assert(s.subrange(16, 18) =~= u16_bytes(g.st_mode));
    assert(s.subrange(20, 24) =~= u32_bytes(g.st_nlink));
    assert(s.subrange(24, 28) =~= u32_bytes(g.st_uid));
    assert(s.subrange(28, 32) =~= u32_bytes(g.st_gid));
    assert(s.subrange(32, 40) =~= u64_bytes(g.st_size));
    assert(s.subrange(40, 44) =~= u32_bytes(g.st_blksize));
    assert(s.subrange(48, 56) =~= u64_bytes(g.st_blocks));
    assert(s.subrange(56, 64) =~= u64_bytes(g.st_mtime));
    assert(s.subrange(64, 68) =~= u32_bytes(g.st_mtime_nsec));
    assert(s.subrange(72, 80) =~= u64_bytes(g.st_atime));
    assert(s.subrange(80, 84) =~= u32_bytes(g.st_atime_nsec));
    assert(s.subrange(88, 96) =~= u64_bytes(g.st_ctime));
    assert(s.subrange(96, 100) =~= u32_bytes(g.st_ctime_nsec));
    lemma_u64_round_trip(s, 0, g.st_dev);
    lemma_u64_round_trip(s, 8, g.st_ino);
    lemma_u16_round_trip(s, 16, g.st_mode);
    lemma_u32_round_trip(s, 20, g.st_nlink);
    lemma_u32_round_trip(s, 24, g.st_uid);
    lemma_u32_round_trip(s, 28, g.st_gid);
    lemma_u64_round_trip(s, 32, g.st_size);
    lemma_u32_round_trip(s, 40, g.st_blksize);
    lemma_u64_round_trip(s, 48, g.st_blocks);
    lemma_u64_round_trip(s, 56, g.st_mtime);
    lemma_u32_round_trip(s, 64, g.st_mtime_nsec);
    lemma_u64_round_trip(s, 72, g.st_atime);
    lemma_u32_round_trip(s, 80, g.st_atime_nsec);
    lemma_u64_round_trip(s, 88, g.st_ctime);
    lemma_u32_round_trip(s, 96, g.st_ctime_nsec);
}

} // verus!
