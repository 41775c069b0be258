use rine::abi;
use rine::regs::Error;
use rine::stat::{Stat, GUEST_STAT_SIZE};

#[test]
fn guest_call_numbers_match_the_guest_crate() {
    assert_eq!(abi::SYS_OPEN, syscall::SYS_OPEN as u64);
    assert_eq!(abi::SYS_READ, syscall::SYS_READ as u64);
    assert_eq!(abi::SYS_WRITE, syscall::SYS_WRITE as u64);
    assert_eq!(abi::SYS_FSTAT, syscall::SYS_FSTAT as u64);
    assert_eq!(abi::SYS_EXIT, syscall::SYS_EXIT as u64);
    assert_eq!(abi::SYS_GETPID, syscall::SYS_GETPID as u64);
    assert_eq!(abi::SYS_CHMOD, syscall::SYS_CHMOD as u64);
    assert_eq!(abi::SYS_LSEEK, syscall::SYS_LSEEK as u64);
    assert_eq!(abi::SYS_FUTEX, syscall::SYS_FUTEX as u64);
    assert_eq!(abi::SYS_CLOCK_GETTIME, syscall::SYS_CLOCK_GETTIME as u64);
    assert_eq!(abi::SYS_NANOSLEEP, syscall::SYS_NANOSLEEP as u64);
}

#[test]
fn guest_open_flags_match_the_guest_crate() {
    assert_eq!(abi::O_RDONLY, syscall::O_RDONLY as u64);
    assert_eq!(abi::O_WRONLY, syscall::O_WRONLY as u64);
    assert_eq!(abi::O_RDWR, syscall::O_RDWR as u64);
    assert_eq!(abi::O_ACCMODE, syscall::O_ACCMODE as u64);
    assert_eq!(abi::O_NONBLOCK, syscall::O_NONBLOCK as u64);
    assert_eq!(abi::O_APPEND, syscall::O_APPEND as u64);
    assert_eq!(abi::O_CLOEXEC, syscall::O_CLOEXEC as u64);
    assert_eq!(abi::O_CREAT, syscall::O_CREAT as u64);
    assert_eq!(abi::O_TRUNC, syscall::O_TRUNC as u64);
    assert_eq!(abi::O_EXCL, syscall::O_EXCL as u64);
    assert_eq!(abi::O_DIRECTORY, syscall::O_DIRECTORY as u64);
    assert_eq!(abi::O_STAT, syscall::O_STAT as u64);
    assert_eq!(abi::O_NOFOLLOW, syscall::O_NOFOLLOW as u64);
    assert_eq!(abi::SEEK_END, syscall::SEEK_END as u64);
    assert_eq!(abi::F_GETFL, syscall::F_GETFL as u64);
}

#[test]
fn guest_stat_layout_matches_the_guest_crate() {
    assert_eq!(GUEST_STAT_SIZE as usize, std::mem::size_of::<syscall::Stat>());
    let g = syscall::Stat {
        st_dev: 1,
        st_ino: 2,
        st_mode: 0o100755,
        st_nlink: 3,
        st_uid: 4,
        st_gid: 5,
        st_size: 6,
        st_blksize: 7,
        st_blocks: 8,
        st_mtime: 9,
        st_mtime_nsec: 10,
        st_atime: 11,
        st_atime_nsec: 12,
        st_ctime: 13,
        st_ctime_nsec: 14,
    };
    let s = Stat::from_bytes(&g[..]);
    assert_eq!(
        s,
        Stat {
            st_dev: 1,
            st_ino: 2,
            st_mode: 0o100755,
            st_nlink: 3,
            st_uid: 4,
            st_gid: 5,
            st_size: 6,
            st_blksize: 7,
            st_blocks: 8,
            st_mtime: 9,
            st_mtime_nsec: 10,
            st_atime: 11,
            st_atime_nsec: 12,
            st_ctime: 13,
            st_ctime_nsec: 14,
        }
    );
    let ours = s.to_bytes();
    let back = Stat::from_bytes(&ours);
    assert_eq!(back, s);
}

#[test]
fn result_decoding_matches_the_guest_crate() {
    for v in [0usize, 1, 4096, (-1isize) as usize, (-2isize) as usize, (-131isize) as usize,
              (-132isize) as usize, (-4095isize) as usize, usize::MAX - (1 << 40)] {
        let theirs = syscall::Error::demux(v).map_err(|e| e.errno);
        let ours = Error::demux(v).map_err(|e| e.errno);
        assert_eq!(ours, theirs, "value {:#x}", v);
    }
}
