//! Numbers of both ABIs: the guest's (Redox) call numbers and open flags, and
//! the host's (Linux x86_64) call numbers and open flags.
use vstd::prelude::*;

verus! {

/// Size of one page of the guest's memory; the staging area is one page.
pub const PAGE_SIZE: u64 = 4096;

// Guest call numbers.
pub const SYS_OPEN: u64 = 0x1010_0005;
pub const SYS_CHMOD: u64 = 0x1000_000f;
pub const SYS_RMDIR: u64 = 0x1000_0054;
pub const SYS_UNLINK: u64 = 0x1000_000a;
pub const SYS_CLOSE: u64 = 0x2000_0006;
pub const SYS_DUP: u64 = 0x2010_0029;
pub const SYS_DUP2: u64 = 0x2010_003f;
pub const SYS_READ: u64 = 0x2200_0003;
pub const SYS_WRITE: u64 = 0x2100_0004;
pub const SYS_LSEEK: u64 = 0x2000_0013;
pub const SYS_FCNTL: u64 = 0x2000_0037;
pub const SYS_FEXEC: u64 = 0x2000_000b;
pub const SYS_FMAP: u64 = 0x2100_005a;
pub const SYS_FUNMAP: u64 = 0x2000_005b;
pub const SYS_FPATH: u64 = 0x2200_03a0;
pub const SYS_FSTAT: u64 = 0x2200_001c;
pub const SYS_FSTATVFS: u64 = 0x2200_0064;
pub const SYS_FSYNC: u64 = 0x2000_0076;
pub const SYS_FTRUNCATE: u64 = 0x2000_005d;
pub const SYS_BRK: u64 = 45;
pub const SYS_CHDIR: u64 = 12;
pub const SYS_CLOCK_GETTIME: u64 = 265;
pub const SYS_CLONE: u64 = 120;
pub const SYS_EXIT: u64 = 1;
pub const SYS_FUTEX: u64 = 240;
pub const SYS_GETCWD: u64 = 183;
pub const SYS_GETEGID: u64 = 202;
pub const SYS_GETENS: u64 = 951;
pub const SYS_GETEUID: u64 = 201;
pub const SYS_GETGID: u64 = 200;
pub const SYS_GETNS: u64 = 950;
pub const SYS_GETPID: u64 = 20;
pub const SYS_GETUID: u64 = 199;
pub const SYS_IOPL: u64 = 110;
pub const SYS_KILL: u64 = 37;
pub const SYS_MKNS: u64 = 984;
pub const SYS_NANOSLEEP: u64 = 162;
pub const SYS_PHYSALLOC: u64 = 945;
pub const SYS_PHYSFREE: u64 = 946;
pub const SYS_PHYSMAP: u64 = 947;
pub const SYS_PHYSUNMAP: u64 = 948;
pub const SYS_VIRTTOPHYS: u64 = 949;
pub const SYS_PIPE2: u64 = 331;
pub const SYS_SETREGID: u64 = 204;
pub const SYS_SETRENS: u64 = 952;
pub const SYS_SETREUID: u64 = 203;
pub const SYS_SIGACTION: u64 = 67;
pub const SYS_SIGPROCMASK: u64 = 126;
pub const SYS_SIGRETURN: u64 = 119;
pub const SYS_UMASK: u64 = 60;
pub const SYS_WAITPID: u64 = 7;
pub const SYS_YIELD: u64 = 158;

// Guest open flags.
pub const O_RDONLY: u64 = 0x0001_0000;
pub const O_WRONLY: u64 = 0x0002_0000;
pub const O_RDWR: u64 = 0x0003_0000;
pub const O_ACCMODE: u64 = 0x0003_0000;
pub const O_NONBLOCK: u64 = 0x0004_0000;
pub const O_APPEND: u64 = 0x0008_0000;
pub const O_CLOEXEC: u64 = 0x0100_0000;
pub const O_CREAT: u64 = 0x0200_0000;
pub const O_TRUNC: u64 = 0x0400_0000;
pub const O_EXCL: u64 = 0x0800_0000;
pub const O_DIRECTORY: u64 = 0x1000_0000;
pub const O_STAT: u64 = 0x2000_0000;
pub const O_NOFOLLOW: u64 = 0x8000_0000;

// Guest lseek whence values and fcntl commands.
pub const SEEK_SET: u64 = 0;
pub const SEEK_CUR: u64 = 1;
pub const SEEK_END: u64 = 2;
pub const F_DUPFD: u64 = 0;
pub const F_GETFD: u64 = 1;
pub const F_SETFD: u64 = 2;
pub const F_GETFL: u64 = 3;
pub const F_SETFL: u64 = 4;

// Host call numbers.
pub const NR_READ: u64 = 0;
pub const NR_WRITE: u64 = 1;
pub const NR_OPEN: u64 = 2;
pub const NR_FSTAT: u64 = 5;
pub const NR_BRK: u64 = 12;
pub const NR_GETPID: u64 = 39;
pub const NR_EXIT: u64 = 60;

// Host open flags.
pub const HOST_O_RDONLY: u64 = 0;
pub const HOST_O_WRONLY: u64 = 1;
pub const HOST_O_RDWR: u64 = 2;
pub const HOST_O_CREAT: u64 = 0x40;
pub const HOST_O_EXCL: u64 = 0x80;
pub const HOST_O_TRUNC: u64 = 0x200;
pub const HOST_O_APPEND: u64 = 0x400;
pub const HOST_O_NONBLOCK: u64 = 0x800;
pub const HOST_O_DIRECTORY: u64 = 0x1_0000;
pub const HOST_O_NOFOLLOW: u64 = 0x2_0000;
pub const HOST_O_CLOEXEC: u64 = 0x8_0000;
pub const HOST_O_PATH: u64 = 0x20_0000;

} // verus!
