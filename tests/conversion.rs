use rine::abi;
use rine::flags::{convert_open, dropped_open_bits};
use rine::path::{convert_path, is_unknown_scheme};
use rine::stat::{convert_stat, Stat, GUEST_STAT_SIZE, HOST_STAT_SIZE};

fn guest_bits() -> Vec<(u64, i32)> {
    vec![
        (abi::O_RDONLY, libc::O_RDONLY),
        (abi::O_WRONLY, libc::O_WRONLY),
        (abi::O_RDWR, libc::O_RDWR),
        (abi::O_NONBLOCK, libc::O_NONBLOCK),
        (abi::O_CREAT, libc::O_CREAT),
        (abi::O_EXCL, libc::O_EXCL),
        (abi::O_TRUNC, libc::O_TRUNC),
        (abi::O_APPEND, libc::O_APPEND),
        (abi::O_DIRECTORY, libc::O_DIRECTORY),
        (abi::O_NOFOLLOW, libc::O_NOFOLLOW),
        (abi::O_CLOEXEC, libc::O_CLOEXEC),
        (abi::O_STAT, libc::O_PATH),
    ]
}

#[test]
fn each_open_flag_maps_to_its_host_bit_alone() {
    for (guest, host) in guest_bits() {
        let (flags, mode) = convert_open(guest);
        assert_eq!(flags, host as u64, "guest flag {:#x}", guest);
        assert_eq!(mode, 0);
    }
}

#[test]
fn unknown_open_bits_are_dropped() {
    // O_SHLOCK, O_EXLOCK, O_ASYNC, O_FSYNC, O_SYMLINK have no host equivalent.
    for bit in [0x0010_0000u64, 0x0020_0000, 0x0040_0000, 0x0080_0000, 0x4000_0000] {
        assert_eq!(convert_open(bit).0, 0);
        assert_eq!(convert_open(bit | abi::O_CREAT | abi::O_WRONLY).0, (libc::O_CREAT | libc::O_WRONLY) as u64);
    }
}

#[test]
fn dropped_bits_are_reported() {
    assert_eq!(dropped_open_bits(abi::O_RDONLY | abi::O_CREAT | 0o600), 0);
    assert_eq!(dropped_open_bits(abi::O_RDONLY | 0x4000_0000 | 0x0010_0000), 0x4010_0000);
}

#[test]
fn open_flags_combine_and_keep_the_mode() {
    let (flags, mode) = convert_open(abi::O_RDWR | abi::O_CREAT | abi::O_TRUNC | 0o644);
    assert_eq!(flags, (libc::O_RDWR | libc::O_CREAT | libc::O_TRUNC) as u64);
    assert_eq!(mode, 0o644);
}

#[test]
fn host_constants_match_the_host() {
    assert_eq!(abi::NR_READ, sc::nr::READ as u64);
    assert_eq!(abi::NR_WRITE, sc::nr::WRITE as u64);
    assert_eq!(abi::NR_OPEN, sc::nr::OPEN as u64);
    assert_eq!(abi::NR_FSTAT, sc::nr::FSTAT as u64);
    assert_eq!(abi::NR_BRK, sc::nr::BRK as u64);
    assert_eq!(abi::NR_GETPID, sc::nr::GETPID as u64);
    assert_eq!(abi::NR_EXIT, sc::nr::EXIT as u64);
    assert_eq!(HOST_STAT_SIZE as usize, std::mem::size_of::<libc::stat>());
}

#[test]
fn null_scheme_ignores_the_rest() {
    assert_eq!(convert_path(b"null:foo"), b"/dev/null\0".to_vec());
    assert_eq!(convert_path(b"null:"), b"/dev/null\0".to_vec());
    assert_eq!(convert_path(b"null:a:b"), b"/dev/null\0".to_vec());
}

#[test]
fn rand_and_zero_schemes() {
    assert_eq!(convert_path(b"rand:x"), b"/dev/urandom\0".to_vec());
    assert_eq!(convert_path(b"zero:"), b"/dev/zero\0".to_vec());
}

#[test]
fn unknown_scheme_passes_bytes_unchanged() {
    assert_eq!(convert_path(b"bogus:foo"), b"bogus:foo\0".to_vec());
    assert!(is_unknown_scheme(b"bogus:foo"));
    assert!(!is_unknown_scheme(b"null:foo"));
    assert!(!is_unknown_scheme(b"/plain/path"));
}

#[test]
fn plain_and_empty_paths() {
    assert_eq!(convert_path(b"/etc/passwd"), b"/etc/passwd\0".to_vec());
    assert_eq!(convert_path(b""), vec![0u8]);
    assert_eq!(convert_path(b"nul:x"), b"nul:x\0".to_vec());
}

pub fn host_stat_bytes(size: i64) -> Vec<u8> {
    let mut b = vec![0u8; HOST_STAT_SIZE as usize];
    let put = |b: &mut Vec<u8>, off: usize, v: u64, n: usize| {
        b[off..off + n].copy_from_slice(&v.to_le_bytes()[..n]);
    };
    put(&mut b, 0, 0x801, 8); // dev
    put(&mut b, 8, 1234, 8); // ino
    put(&mut b, 16, 1, 8); // nlink
    put(&mut b, 24, 0o100644, 4); // mode
    put(&mut b, 28, 1000, 4); // uid
    put(&mut b, 32, 100, 4); // gid
    put(&mut b, 48, size as u64, 8);
    put(&mut b, 56, 4096, 8); // blksize
    put(&mut b, 64, 8, 8); // blocks
    put(&mut b, 72, 11, 8); // atime
    put(&mut b, 80, 12, 8);
    put(&mut b, 88, 21, 8); // mtime
    put(&mut b, 96, 22, 8);
    put(&mut b, 104, 31, 8); // ctime
    put(&mut b, 112, 32, 8);
    b
}

#[test]
fn stat_fields_convert_by_name() {
    let s = convert_stat(&host_stat_bytes(5000));
    assert_eq!(s.st_dev, 0x801);
    assert_eq!(s.st_ino, 1234);
    assert_eq!(s.st_mode, 0o100644);
    assert_eq!(s.st_nlink, 1);
    assert_eq!(s.st_uid, 1000);
    assert_eq!(s.st_gid, 100);
    assert_eq!(s.st_size, 5000);
    assert_eq!(s.st_blksize, 4096);
    assert_eq!(s.st_blocks, 8);
    assert_eq!((s.st_atime, s.st_atime_nsec), (11, 12));
    assert_eq!((s.st_mtime, s.st_mtime_nsec), (21, 22));
    assert_eq!((s.st_ctime, s.st_ctime_nsec), (31, 32));
}

#[test]
fn guest_stat_bytes_round_trip() {
    let s = convert_stat(&host_stat_bytes(-1));
    assert_eq!(s.st_size, u64::MAX);
    let b = s.to_bytes();
    assert_eq!(b.len(), GUEST_STAT_SIZE as usize);
    assert_eq!(Stat::from_bytes(&b), s);
    // st_size sits at offset 32 of the guest layout.
    assert_eq!(&b[32..40], &u64::MAX.to_le_bytes());
    // st_mode is two bytes at offset 16, followed by padding.
    assert_eq!(&b[16..20], &[0xa4, 0x81, 0, 0]);
}
