//! The call decoder: turns a call number and its argument registers, with
//! what was read from the guest at the pointer arguments, into one line of
//! trace text. It is used to observe calls, never to decide anything.
use vstd::prelude::*;
use vstd::string::StringSliceAdditionalSpecFns;
use crate::abi::{
    F_DUPFD, F_GETFD, F_GETFL, F_SETFD, F_SETFL, SEEK_CUR, SEEK_END, SEEK_SET,
    SYS_BRK, SYS_CHDIR, SYS_CHMOD, SYS_CLOCK_GETTIME, SYS_CLONE, SYS_CLOSE, SYS_DUP, SYS_DUP2, SYS_EXIT, SYS_FCNTL, SYS_FEXEC, SYS_FMAP, SYS_FPATH, SYS_FSTAT, SYS_FSTATVFS, SYS_FSYNC, SYS_FTRUNCATE, SYS_FUNMAP, SYS_FUTEX, SYS_GETCWD, SYS_GETEGID, SYS_GETENS, SYS_GETEUID, SYS_GETGID, SYS_GETNS, SYS_GETPID, SYS_GETUID, SYS_IOPL, SYS_KILL, SYS_LSEEK, SYS_MKNS, SYS_NANOSLEEP, SYS_OPEN, SYS_PHYSALLOC, SYS_PHYSFREE, SYS_PHYSMAP, SYS_PHYSUNMAP, SYS_PIPE2, SYS_READ, SYS_RMDIR, SYS_SETREGID, SYS_SETRENS, SYS_SETREUID, SYS_SIGACTION, SYS_SIGPROCMASK, SYS_SIGRETURN, SYS_UMASK, SYS_UNLINK, SYS_VIRTTOPHYS, SYS_WAITPID, SYS_WRITE, SYS_YIELD,
};
use crate::bytes::{read_u32, u32_le};
use crate::fmt::{
    dec, hex, oct, push_all, push_dec, push_hex, push_oct, push_quoted, push_signed, push_words,
    quoted, signed, words,
};
use crate::record::{layout_size, layout_size_of, push_records, records, Layout};
use crate::regs::Error;
pub use crate::fmt::{escape_default, EscapeDefault};

verus! {

/// How one argument of a call is shown. Numbers are argument slots: 1 to 5
/// for the first five arguments (0 is the call number).
#[derive(Clone, Copy, Debug, PartialEq, Eq, Structural)]
pub enum ArgFmt {
    /// Unsigned decimal.
    Dec(usize),
    /// Hexadecimal, with `0x`.
    Hex(usize),
    /// Octal, with `0o`.
    Oct(usize),
    /// Signed decimal.
    Signed(usize),
    /// An lseek whence, by name and number.
    Whence(usize),
    /// An fcntl command, by name and number.
    Fcntl(usize),
    /// The bytes at an address (first slot) with a length (second slot), as a
    /// quoted string.
    Str(usize, usize),
    /// The whole structures that fit in a buffer (address slot, length slot),
    /// field by field.
    Records(usize, usize, Layout),
    /// One structure at an address, field by field.
    Record(usize, Layout),
    /// A number of items of a size (address slot, count slot), as words.
    Counted(usize, usize, u64),
    /// A fixed number of bytes at an address, as words.
    Fixed(usize, u64),
    /// A futex address and the 32-bit value it holds.
    Futex(usize),
    /// Two numbers between parentheses.
    Pair(usize, usize),
}

/// The name of a guest call and how its arguments are shown.
pub open spec fn call_format_spec(nr: u64) -> Option<(Seq<u8>, Seq<ArgFmt>)> {
    if nr == SYS_OPEN {
        Some(("open".spec_bytes(), seq![ArgFmt::Str(1, 2), ArgFmt::Hex(3)]))
    } else if nr == SYS_CHMOD {
        Some(("chmod".spec_bytes(), seq![ArgFmt::Str(1, 2), ArgFmt::Oct(3)]))
    } else if nr == SYS_RMDIR {
        Some(("rmdir".spec_bytes(), seq![ArgFmt::Str(1, 2)]))
    } else if nr == SYS_UNLINK {
        Some(("unlink".spec_bytes(), seq![ArgFmt::Str(1, 2)]))
    } else if nr == SYS_CLOSE {
        Some(("close".spec_bytes(), seq![ArgFmt::Dec(1)]))
    } else if nr == SYS_DUP {
        Some(("dup".spec_bytes(), seq![ArgFmt::Dec(1), ArgFmt::Str(2, 3)]))
    } else if nr == SYS_DUP2 {
        Some(("dup2".spec_bytes(), seq![ArgFmt::Dec(1), ArgFmt::Dec(2), ArgFmt::Str(3, 4)]))
    } else if nr == SYS_READ {
        Some(("read".spec_bytes(), seq![ArgFmt::Dec(1), ArgFmt::Hex(2), ArgFmt::Dec(3)]))
    } else if nr == SYS_WRITE {
        Some(("write".spec_bytes(), seq![ArgFmt::Dec(1), ArgFmt::Hex(2), ArgFmt::Dec(3)]))
    } else if nr == SYS_LSEEK {
        Some(("lseek".spec_bytes(), seq![ArgFmt::Dec(1), ArgFmt::Signed(2), ArgFmt::Whence(3)]))
    } else if nr == SYS_FCNTL {
        Some(("fcntl".spec_bytes(), seq![ArgFmt::Dec(1), ArgFmt::Fcntl(2), ArgFmt::Hex(3)]))
    } else if nr == SYS_FMAP {
        Some(("fmap".spec_bytes(), seq![ArgFmt::Dec(1), ArgFmt::Records(2, 3, Layout::MemoryMap)]))
    } else if nr == SYS_FUNMAP {
        Some(("funmap".spec_bytes(), seq![ArgFmt::Hex(1)]))
    } else if nr == SYS_FPATH {
        Some(("fpath".spec_bytes(), seq![ArgFmt::Dec(1), ArgFmt::Hex(2), ArgFmt::Dec(3)]))
    } else if nr == SYS_FSTAT {
        Some(("fstat".spec_bytes(), seq![ArgFmt::Dec(1), ArgFmt::Records(2, 3, Layout::Stat)]))
    } else if nr == SYS_FSTATVFS {
        Some(("fstatvfs".spec_bytes(), seq![ArgFmt::Dec(1), ArgFmt::Hex(2), ArgFmt::Dec(3)]))
    } else if nr == SYS_FSYNC {
        Some(("fsync".spec_bytes(), seq![ArgFmt::Dec(1)]))
    } else if nr == SYS_FTRUNCATE {
        Some(("ftruncate".spec_bytes(), seq![ArgFmt::Dec(1), ArgFmt::Dec(2)]))
    } else if nr == SYS_BRK {
        Some(("brk".spec_bytes(), seq![ArgFmt::Hex(1)]))
    } else if nr == SYS_CHDIR {
        Some(("chdir".spec_bytes(), seq![ArgFmt::Str(1, 2)]))
    } else if nr == SYS_CLOCK_GETTIME {
        Some(("clock_gettime".spec_bytes(), seq![ArgFmt::Dec(1), ArgFmt::Record(2, Layout::TimeSpec)]))
    } else if nr == SYS_CLONE {
        Some(("clone".spec_bytes(), seq![ArgFmt::Dec(1)]))
    } else if nr == SYS_EXIT {
        Some(("exit".spec_bytes(), seq![ArgFmt::Dec(1)]))
    } else if nr == SYS_FEXEC {
        Some(("fexec".spec_bytes(), seq![ArgFmt::Dec(1), ArgFmt::Counted(2, 3, 16), ArgFmt::Counted(4, 5, 16)]))
    } else if nr == SYS_FUTEX {
        Some(("futex".spec_bytes(), seq![ArgFmt::Futex(1), ArgFmt::Dec(2), ArgFmt::Dec(3), ArgFmt::Dec(4), ArgFmt::Dec(5)]))
    } else if nr == SYS_GETCWD {
        Some(("getcwd".spec_bytes(), seq![ArgFmt::Hex(1), ArgFmt::Dec(2)]))
    } else if nr == SYS_GETEGID {
        Some(("getegid".spec_bytes(), seq![]))
    } else if nr == SYS_GETENS {
        Some(("getens".spec_bytes(), seq![]))
    } else if nr == SYS_GETEUID {
        Some(("geteuid".spec_bytes(), seq![]))
    } else if nr == SYS_GETGID {
        Some(("getgid".spec_bytes(), seq![]))
    } else if nr == SYS_GETNS {
        Some(("getns".spec_bytes(), seq![]))
    } else if nr == SYS_GETPID {
        Some(("getpid".spec_bytes(), seq![]))
    } else if nr == SYS_GETUID {
        Some(("getuid".spec_bytes(), seq![]))
    } else if nr == SYS_IOPL {
        Some(("iopl".spec_bytes(), seq![ArgFmt::Dec(1)]))
    } else if nr == SYS_KILL {
        Some(("kill".spec_bytes(), seq![ArgFmt::Dec(1), ArgFmt::Dec(2)]))
    } else if nr == SYS_SIGRETURN {
        Some(("sigreturn".spec_bytes(), seq![]))
    } else if nr == SYS_SIGACTION {
        Some(("sigaction".spec_bytes(), seq![ArgFmt::Dec(1), ArgFmt::Hex(2), ArgFmt::Hex(3), ArgFmt::Hex(4)]))
    } else if nr == SYS_SIGPROCMASK {
        Some(("sigprocmask".spec_bytes(), seq![ArgFmt::Dec(1), ArgFmt::Fixed(2, 16), ArgFmt::Fixed(3, 16)]))
    } else if nr == SYS_MKNS {
        Some(("mkns".spec_bytes(), seq![ArgFmt::Counted(1, 2, 16)]))
    } else if nr == SYS_NANOSLEEP {
        Some(("nanosleep".spec_bytes(), seq![ArgFmt::Record(1, Layout::TimeSpec), ArgFmt::Pair(2, 3)]))
    } else if nr == SYS_PHYSALLOC {
        Some(("physalloc".spec_bytes(), seq![ArgFmt::Dec(1)]))
    } else if nr == SYS_PHYSFREE {
        Some(("physfree".spec_bytes(), seq![ArgFmt::Hex(1), ArgFmt::Dec(2)]))
    } else if nr == SYS_PHYSMAP {
        Some(("physmap".spec_bytes(), seq![ArgFmt::Hex(1), ArgFmt::Dec(2), ArgFmt::Hex(3)]))
    } else if nr == SYS_PHYSUNMAP {
        Some(("physunmap".spec_bytes(), seq![ArgFmt::Hex(1)]))
    } else if nr == SYS_VIRTTOPHYS {
        Some(("virttophys".spec_bytes(), seq![ArgFmt::Hex(1)]))
    } else if nr == SYS_PIPE2 {
        Some(("pipe2".spec_bytes(), seq![ArgFmt::Fixed(1, 16), ArgFmt::Dec(2)]))
    } else if nr == SYS_SETREGID {
        Some(("setregid".spec_bytes(), seq![ArgFmt::Dec(1), ArgFmt::Dec(2)]))
    } else if nr == SYS_SETRENS {
        Some(("setrens".spec_bytes(), seq![ArgFmt::Dec(1), ArgFmt::Dec(2)]))
    } else if nr == SYS_SETREUID {
        Some(("setreuid".spec_bytes(), seq![ArgFmt::Dec(1), ArgFmt::Dec(2)]))
    } else if nr == SYS_UMASK {
        Some(("umask".spec_bytes(), seq![ArgFmt::Oct(1)]))
    } else if nr == SYS_WAITPID {
        Some(("waitpid".spec_bytes(), seq![ArgFmt::Dec(1), ArgFmt::Hex(2), ArgFmt::Dec(3)]))
    } else if nr == SYS_YIELD {
        Some(("yield".spec_bytes(), seq![]))
    } else {
        None
    }
}

/// Looks up how a guest call is shown; `None` for a number the decoder does
/// not know.
pub fn call_format(nr: u64) -> (r: Option<(&'static str, Vec<ArgFmt>)>)
    ensures
        r is None <==> call_format_spec(nr) is None,
        r is Some ==> r->Some_0.0.spec_bytes() == call_format_spec(nr)->Some_0.0
            && r->Some_0.1@ == call_format_spec(nr)->Some_0.1,
{
    if nr == SYS_OPEN {
        Some(("open", vec![ArgFmt::Str(1, 2), ArgFmt::Hex(3)]))
    } else if nr == SYS_CHMOD {
        Some(("chmod", vec![ArgFmt::Str(1, 2), ArgFmt::Oct(3)]))
    } else if nr == SYS_RMDIR {
        Some(("rmdir", vec![ArgFmt::Str(1, 2)]))
    } else if nr == SYS_UNLINK {
        Some(("unlink", vec![ArgFmt::Str(1, 2)]))
    } else if nr == SYS_CLOSE {
        Some(("close", vec![ArgFmt::Dec(1)]))
    } else if nr == SYS_DUP {
        Some(("dup", vec![ArgFmt::Dec(1), ArgFmt::Str(2, 3)]))
    } else if nr == SYS_DUP2 {
        Some(("dup2", vec![ArgFmt::Dec(1), ArgFmt::Dec(2), ArgFmt::Str(3, 4)]))
    } else if nr == SYS_READ {
        Some(("read", vec![ArgFmt::Dec(1), ArgFmt::Hex(2), ArgFmt::Dec(3)]))
    } else if nr == SYS_WRITE {
        Some(("write", vec![ArgFmt::Dec(1), ArgFmt::Hex(2), ArgFmt::Dec(3)]))
    } else if nr == SYS_LSEEK {
        Some(("lseek", vec![ArgFmt::Dec(1), ArgFmt::Signed(2), ArgFmt::Whence(3)]))
    } else if nr == SYS_FCNTL {
        Some(("fcntl", vec![ArgFmt::Dec(1), ArgFmt::Fcntl(2), ArgFmt::Hex(3)]))
    } else if nr == SYS_FMAP {
        Some(("fmap", vec![ArgFmt::Dec(1), ArgFmt::Records(2, 3, Layout::MemoryMap)]))
    } else if nr == SYS_FUNMAP {
        Some(("funmap", vec![ArgFmt::Hex(1)]))
    } else if nr == SYS_FPATH {
        Some(("fpath", vec![ArgFmt::Dec(1), ArgFmt::Hex(2), ArgFmt::Dec(3)]))
    } else if nr == SYS_FSTAT {
        Some(("fstat", vec![ArgFmt::Dec(1), ArgFmt::Records(2, 3, Layout::Stat)]))
    } else if nr == SYS_FSTATVFS {
        Some(("fstatvfs", vec![ArgFmt::Dec(1), ArgFmt::Hex(2), ArgFmt::Dec(3)]))
    } else if nr == SYS_FSYNC {
        Some(("fsync", vec![ArgFmt::Dec(1)]))
    } else if nr == SYS_FTRUNCATE {
        Some(("ftruncate", vec![ArgFmt::Dec(1), ArgFmt::Dec(2)]))
    } else if nr == SYS_BRK {
        Some(("brk", vec![ArgFmt::Hex(1)]))
    } else if nr == SYS_CHDIR {
        Some(("chdir", vec![ArgFmt::Str(1, 2)]))
    } else if nr == SYS_CLOCK_GETTIME {
        Some(("clock_gettime", vec![ArgFmt::Dec(1), ArgFmt::Record(2, Layout::TimeSpec)]))
    } else if nr == SYS_CLONE {
        Some(("clone", vec![ArgFmt::Dec(1)]))
    } else if nr == SYS_EXIT {
        Some(("exit", vec![ArgFmt::Dec(1)]))
    } else if nr == SYS_FEXEC {
        Some(("fexec", vec![ArgFmt::Dec(1), ArgFmt::Counted(2, 3, 16), ArgFmt::Counted(4, 5, 16)]))
    } else if nr == SYS_FUTEX {
        Some(("futex", vec![ArgFmt::Futex(1), ArgFmt::Dec(2), ArgFmt::Dec(3), ArgFmt::Dec(4), ArgFmt::Dec(5)]))
    } else if nr == SYS_GETCWD {
        Some(("getcwd", vec![ArgFmt::Hex(1), ArgFmt::Dec(2)]))
    } else if nr == SYS_GETEGID {
        Some(("getegid", vec![]))
    } else if nr == SYS_GETENS {
        Some(("getens", vec![]))
    } else if nr == SYS_GETEUID {
        Some(("geteuid", vec![]))
    } else if nr == SYS_GETGID {
        Some(("getgid", vec![]))
    } else if nr == SYS_GETNS {
        Some(("getns", vec![]))
    } else if nr == SYS_GETPID {
        Some(("getpid", vec![]))
    } else if nr == SYS_GETUID {
        Some(("getuid", vec![]))
    } else if nr == SYS_IOPL {
        Some(("iopl", vec![ArgFmt::Dec(1)]))
    } else if nr == SYS_KILL {
        Some(("kill", vec![ArgFmt::Dec(1), ArgFmt::Dec(2)]))
    } else if nr == SYS_SIGRETURN {
        Some(("sigreturn", vec![]))
    } else if nr == SYS_SIGACTION {
        Some(("sigaction", vec![ArgFmt::Dec(1), ArgFmt::Hex(2), ArgFmt::Hex(3), ArgFmt::Hex(4)]))
    } else if nr == SYS_SIGPROCMASK {
        Some(("sigprocmask", vec![ArgFmt::Dec(1), ArgFmt::Fixed(2, 16), ArgFmt::Fixed(3, 16)]))
    } else if nr == SYS_MKNS {
        Some(("mkns", vec![ArgFmt::Counted(1, 2, 16)]))
    } else if nr == SYS_NANOSLEEP {
        Some(("nanosleep", vec![ArgFmt::Record(1, Layout::TimeSpec), ArgFmt::Pair(2, 3)]))
    } else if nr == SYS_PHYSALLOC {
        Some(("physalloc", vec![ArgFmt::Dec(1)]))
    } else if nr == SYS_PHYSFREE {
        Some(("physfree", vec![ArgFmt::Hex(1), ArgFmt::Dec(2)]))
    } else if nr == SYS_PHYSMAP {
        Some(("physmap", vec![ArgFmt::Hex(1), ArgFmt::Dec(2), ArgFmt::Hex(3)]))
    } else if nr == SYS_PHYSUNMAP {
        Some(("physunmap", vec![ArgFmt::Hex(1)]))
    } else if nr == SYS_VIRTTOPHYS {
        Some(("virttophys", vec![ArgFmt::Hex(1)]))
    } else if nr == SYS_PIPE2 {
        Some(("pipe2", vec![ArgFmt::Fixed(1, 16), ArgFmt::Dec(2)]))
    } else if nr == SYS_SETREGID {
        Some(("setregid", vec![ArgFmt::Dec(1), ArgFmt::Dec(2)]))
    } else if nr == SYS_SETRENS {
        Some(("setrens", vec![ArgFmt::Dec(1), ArgFmt::Dec(2)]))
    } else if nr == SYS_SETREUID {
        Some(("setreuid", vec![ArgFmt::Dec(1), ArgFmt::Dec(2)]))
    } else if nr == SYS_UMASK {
        Some(("umask", vec![ArgFmt::Oct(1)]))
    } else if nr == SYS_WAITPID {
        Some(("waitpid", vec![ArgFmt::Dec(1), ArgFmt::Hex(2), ArgFmt::Dec(3)]))
    } else if nr == SYS_YIELD {
        Some(("yield", vec![]))
    } else {
        None
    }
}

/// The value of an argument slot.
pub open spec fn arg(args: Seq<u64>, s: usize) -> u64 {
    if s < 6 {
        args[s as int]
    } else {
        0
    }
}

fn arg_of(args: &[u64; 6], s: usize) -> (r: u64)
    ensures
        r == arg(args@, s),
{
    if s < 6 {
        args[s]
    } else {
        0
    }
}

/// What must be read from the guest to show an argument: address and length.
pub open spec fn request_spec(f: ArgFmt, args: Seq<u64>) -> Option<(u64, u64)> {
    match f {
        ArgFmt::Str(p, l) => Some((arg(args, p), arg(args, l))),
        ArgFmt::Records(p, l, lay) => Some(
            (arg(args, p), ((arg(args, l) / layout_size(lay)) * layout_size(lay)) as u64),
        ),
        ArgFmt::Record(p, lay) => Some((arg(args, p), layout_size(lay))),
        ArgFmt::Counted(p, n, size) => if arg(args, n) * size <= u64::MAX {
            Some((arg(args, p), (arg(args, n) * size) as u64))
        } else {
            None
        },
        ArgFmt::Fixed(p, len) => Some((arg(args, p), len)),
        ArgFmt::Futex(s) => Some((arg(args, s), 4)),
        _ => None,
    }
}

fn request_of(f: ArgFmt, args: &[u64; 6]) -> (r: Option<(u64, u64)>)
    ensures
        r == request_spec(f, args@),
{
    match f {
        ArgFmt::Str(p, l) => Some((arg_of(args, p), arg_of(args, l))),
        ArgFmt::Record(p, lay) => Some((arg_of(args, p), layout_size_of(lay))),
        ArgFmt::Records(p, l, lay) => {
            let size = layout_size_of(lay);
            let n = arg_of(args, l) / size;
            assert(n * size <= arg(args@, l)) by (nonlinear_arith)
                requires
                    n == arg(args@, l) / size,
                    size > 0,
            ;
            Some((arg_of(args, p), n * size))
        },
        ArgFmt::Counted(p, n, size) => {
            let count = arg_of(args, n);
            match count.checked_mul(size) {
                Some(len) => Some((arg_of(args, p), len)),
                None => None,
            }
        },
        ArgFmt::Fixed(p, len) => Some((arg_of(args, p), len)),
        ArgFmt::Futex(s) => Some((arg_of(args, s), 4)),
        _ => None,
    }
}

/// The reads that showing a call needs, one for each of its arguments (`None`
/// where an argument needs none, or where its length does not fit in a word).
pub fn payload_requests(args: &[u64; 6]) -> (r: Vec<Option<(u64, u64)>>)
    ensures
        call_format_spec(args@[0]) is None ==> r@.len() == 0,
        call_format_spec(args@[0]) is Some ==> r@.len() == call_format_spec(args@[0])->Some_0.1.len()
            && forall|i: int|
            0 <= i < r@.len() ==> #[trigger] r@[i] == request_spec(
                call_format_spec(args@[0])->Some_0.1[i],
                args@,
            ),
{
    let mut r: Vec<Option<(u64, u64)>> = Vec::new();
    match call_format(args[0]) {
        None => {},
        Some((_, fmts)) => {
            let mut i: usize = 0;
            while i < fmts.len()
                invariant
                    fmts@ == call_format_spec(args@[0])->Some_0.1,
                    i <= fmts@.len(),
                    r@.len() == i,
                    forall|j: int| 0 <= j < i ==> #[trigger] r@[j] == request_spec(fmts@[j], args@),
                decreases fmts@.len() - i,
            {
                r.push(request_of(fmts[i], args));
                i = i + 1;
            }
        },
    }
    r
}

/// Shown where a read from the guest failed.
pub open spec fn unavailable() -> Seq<u8> {
    "<unavailable>".spec_bytes()
}

pub open spec fn whence_name(v: u64) -> Seq<u8> {
    if v == SEEK_SET {
        "SEEK_SET".spec_bytes()
    } else if v == SEEK_CUR {
        "SEEK_CUR".spec_bytes()
    } else if v == SEEK_END {
        "SEEK_END".spec_bytes()
    } else {
        "UNKNOWN".spec_bytes()
    }
}

pub open spec fn fcntl_name(v: u64) -> Seq<u8> {
    if v == F_DUPFD {
        "F_DUPFD".spec_bytes()
    } else if v == F_GETFD {
        "F_GETFD".spec_bytes()
    } else if v == F_SETFD {
        "F_SETFD".spec_bytes()
    } else if v == F_SETFL {
        "F_SETFL".spec_bytes()
    } else if v == F_GETFL {
        "F_GETFL".spec_bytes()
    } else {
        "UNKNOWN".spec_bytes()
    }
}

fn whence_name_of(v: u64) -> (r: &'static str)
    ensures
        r.spec_bytes() == whence_name(v),
{
    if v == SEEK_SET {
        "SEEK_SET"
    } else if v == SEEK_CUR {
        "SEEK_CUR"
    } else if v == SEEK_END {
        "SEEK_END"
    } else {
        "UNKNOWN"
    }
}

fn fcntl_name_of(v: u64) -> (r: &'static str)
    ensures
        r.spec_bytes() == fcntl_name(v),
{
    if v == F_DUPFD {
        "F_DUPFD"
    } else if v == F_GETFD {
        "F_GETFD"
    } else if v == F_SETFD {
        "F_SETFD"
    } else if v == F_SETFL {
        "F_SETFL"
    } else if v == F_GETFL {
        "F_GETFL"
    } else {
        "UNKNOWN"
    }
}

/// The 32-bit signed value that a futex word holds.
pub open spec fn futex_word(p: Option<Seq<u8>>) -> Seq<u8> {
    match p {
        Some(b) => if b.len() >= 4 {
            signed(u32_le(b, 0) as i32 as i64)
        } else {
            unavailable()
        },
        None => unavailable(),
    }
}

/// How an argument is shown, given what was read for it (`None`: nothing, or
/// a failed read).
pub open spec fn render_arg(f: ArgFmt, args: Seq<u64>, p: Option<Seq<u8>>) -> Seq<u8> {
    match f {
        ArgFmt::Dec(s) => dec(arg(args, s)),
        ArgFmt::Hex(s) => hex(arg(args, s)),
        ArgFmt::Oct(s) => oct(arg(args, s)),
        ArgFmt::Signed(s) => signed(arg(args, s) as i64),
        ArgFmt::Whence(s) => whence_name(arg(args, s)) + " (".spec_bytes() + dec(arg(args, s))
            + ")".spec_bytes(),
        ArgFmt::Fcntl(s) => fcntl_name(arg(args, s)) + " (".spec_bytes() + dec(arg(args, s))
            + ")".spec_bytes(),
        ArgFmt::Str(_, _) => match p {
            Some(b) => quoted(b),
            None => unavailable(),
        },
        ArgFmt::Futex(s) => hex(arg(args, s)) + " [".spec_bytes() + futex_word(p)
            + "]".spec_bytes(),
        ArgFmt::Pair(s, t) => "(".spec_bytes() + dec(arg(args, s)) + ", ".spec_bytes() + dec(
            arg(args, t),
        ) + ")".spec_bytes(),
        ArgFmt::Records(_, _, lay) | ArgFmt::Record(_, lay) => match p {
            Some(b) => records(b, lay),
            None => unavailable(),
        },
        _ => match p {
            Some(b) => words(b),
            None => unavailable(),
        },
    }
}

pub open spec fn opt_bytes(p: Option<&[u8]>) -> Option<Seq<u8>> {
    match p {
        Some(b) => Some(b@),
        None => None,
    }
}

pub fn push_arg(out: &mut Vec<u8>, f: ArgFmt, args: &[u64; 6], p: Option<&[u8]>)
    ensures
        final(out)@ == old(out)@ + render_arg(f, args@, opt_bytes(p)),
{
    match f {
        ArgFmt::Dec(s) => push_dec(out, arg_of(args, s)),
        ArgFmt::Hex(s) => push_hex(out, arg_of(args, s)),
        ArgFmt::Oct(s) => push_oct(out, arg_of(args, s)),
        ArgFmt::Signed(s) => push_signed(out, arg_of(args, s) as i64),
        ArgFmt::Whence(s) => {
            let v = arg_of(args, s);
            push_all(out, whence_name_of(v).as_bytes());
            push_all(out, " (".as_bytes());
            push_dec(out, v);
            push_all(out, ")".as_bytes());
        },
        ArgFmt::Fcntl(s) => {
            let v = arg_of(args, s);
            push_all(out, fcntl_name_of(v).as_bytes());
            push_all(out, " (".as_bytes());
            push_dec(out, v);
            push_all(out, ")".as_bytes());
        },
        ArgFmt::Str(_, _) => match p {
            Some(b) => push_quoted(out, b),
            None => push_all(out, "<unavailable>".as_bytes()),
        },
        ArgFmt::Futex(s) => {
            push_hex(out, arg_of(args, s));
            push_all(out, " [".as_bytes());
            match p {
                Some(b) => if b.len() >= 4 {
                    push_signed(out, read_u32(b, 0) as i32 as i64);
                } else {
                    push_all(out, "<unavailable>".as_bytes());
                },
                None => push_all(out, "<unavailable>".as_bytes()),
            }
            push_all(out, "]".as_bytes());
        },
        ArgFmt::Pair(s, t) => {
            push_all(out, "(".as_bytes());
            push_dec(out, arg_of(args, s));
            push_all(out, ", ".as_bytes());
            push_dec(out, arg_of(args, t));
            push_all(out, ")".as_bytes());
        },
        ArgFmt::Records(_, _, lay) | ArgFmt::Record(_, lay) => match p {
            Some(b) => push_records(out, b, lay),
            None => push_all(out, "<unavailable>".as_bytes()),
        },
        _ => match p {
            Some(b) => push_words(out, b),
            None => push_all(out, "<unavailable>".as_bytes()),
        },
    }
    assert(final(out)@ =~= old(out)@ + render_arg(f, args@, opt_bytes(p)));
}

/// What was read for argument `i`, if anything.
pub open spec fn payload_at(ps: Seq<Option<Vec<u8>>>, i: int) -> Option<Seq<u8>> {
    if 0 <= i < ps.len() {
        match ps[i] {
            Some(v) => Some(v@),
            None => None,
        }
    } else {
        None
    }
}

/// The first `n` arguments, shown and separated by `, `.
pub open spec fn render_list(fmts: Seq<ArgFmt>, args: Seq<u64>, ps: Seq<Option<Vec<u8>>>, n: nat) -> Seq<u8>
    decreases n,
{
    if n == 0 {
        Seq::empty()
    } else {
        let prev = render_list(fmts, args, ps, (n - 1) as nat);
        let sep = if n > 1 {
            ", ".spec_bytes()
        } else {
            Seq::empty()
        };
        prev + sep + render_arg(fmts[n - 1], args, payload_at(ps, n - 1))
    }
}

/// A call that the decoder does not know: its number in decimal and in
/// hexadecimal, and the five arguments in hexadecimal.
pub open spec fn unknown_call(args: Seq<u64>) -> Seq<u8> {
    "UNKNOWN".spec_bytes() + dec(args[0]) + " ".spec_bytes() + hex(args[0]) + "(".spec_bytes()
        + hex(args[1]) + ", ".spec_bytes() + hex(args[2]) + ", ".spec_bytes() + hex(args[3])
        + ", ".spec_bytes() + hex(args[4]) + ", ".spec_bytes() + hex(args[5]) + ")".spec_bytes()
}

/// The trace text of a call.
pub open spec fn format_spec(args: Seq<u64>, ps: Seq<Option<Vec<u8>>>) -> Seq<u8> {
    match call_format_spec(args[0]) {
        Some((name, fmts)) => name + "(".spec_bytes() + render_list(fmts, args, ps, fmts.len())
            + ")".spec_bytes(),
        None => unknown_call(args),
    }
}

/// Shows a call: `args` holds the call number and five arguments, `payloads`
/// what was read for each argument as `payload_requests` asked.
pub fn format_call(args: &[u64; 6], payloads: &Vec<Option<Vec<u8>>>) -> (r: Vec<u8>)
    ensures
        r@ == format_spec(args@, payloads@),
{
    let mut out: Vec<u8> = Vec::new();
    match call_format(args[0]) {
        None => {
            push_all(&mut out, "UNKNOWN".as_bytes());
            push_dec(&mut out, args[0]);
            push_all(&mut out, " ".as_bytes());
            push_hex(&mut out, args[0]);
            push_all(&mut out, "(".as_bytes());
            push_hex(&mut out, args[1]);
            push_all(&mut out, ", ".as_bytes());
            push_hex(&mut out, args[2]);
            push_all(&mut out, ", ".as_bytes());
            push_hex(&mut out, args[3]);
            push_all(&mut out, ", ".as_bytes());
            push_hex(&mut out, args[4]);
            push_all(&mut out, ", ".as_bytes());
            push_hex(&mut out, args[5]);
            push_all(&mut out, ")".as_bytes());
            assert(out@ =~= unknown_call(args@));
        },
        Some((name, fmts)) => {
            push_all(&mut out, name.as_bytes());
            push_all(&mut out, "(".as_bytes());
            let ghost start = out@;
            let mut i: usize = 0;
            while i < fmts.len()
                invariant
                    fmts@ == call_format_spec(args@[0])->Some_0.1,
                    i <= fmts@.len(),
                    out@ == start + render_list(fmts@, args@, payloads@, i as nat),
                decreases fmts@.len() - i,
            {
                let ghost before = out@;
                if i > 0 {
                    push_all(&mut out, ", ".as_bytes());
                }
                let p: Option<&[u8]> = if i < payloads.len() {
                    match &payloads[i] {
                        Some(v) => Some(v.as_slice()),
                        None => None,
                    }
                } else {
                    None
                };
                assert(opt_bytes(p) == payload_at(payloads@, i as int));
                push_arg(&mut out, fmts[i], args, p);
                i = i + 1;
                assert(out@ =~= start + render_list(fmts@, args@, payloads@, i as nat));
            }
            push_all(&mut out, ")".as_bytes());
            assert(out@ =~= format_spec(args@, payloads@));
        },
    }
    out
}

/// How a call's result is shown at its exit: the value in decimal and in
/// hexadecimal, or the error number.
pub open spec fn result_text(res: Result<usize, Error>) -> Seq<u8> {
    match res {
        Ok(v) => "Ok(".spec_bytes() + dec(v as u64) + ") Ok(".spec_bytes() + hex(v as u64)
            + ")".spec_bytes(),
        Err(e) => "Err(".spec_bytes() + signed(e.errno as i64) + ")".spec_bytes(),
    }
}

pub fn format_result(res: &Result<usize, Error>) -> (r: Vec<u8>)
    ensures
        r@ == result_text(*res),
{
    let mut out: Vec<u8> = Vec::new();
    match res {
        Ok(v) => {
            push_all(&mut out, "Ok(".as_bytes());
            push_dec(&mut out, *v as u64);
            push_all(&mut out, ") Ok(".as_bytes());
            push_hex(&mut out, *v as u64);
            push_all(&mut out, ")".as_bytes());
        },
        Err(e) => {
            push_all(&mut out, "Err(".as_bytes());
            push_signed(&mut out, e.errno as i64);
            push_all(&mut out, ")".as_bytes());
        },
    }
    assert(out@ =~= result_text(*res));
    out
}

} // verus!
