use rine::abi;
use rine::debug::{escape_default, format_call, format_result, payload_requests};
use rine::regs::{Error, Process, RegisterSet};
use rine::stat::{Stat, GUEST_STAT_SIZE};
use rine::translate::{
    begin_call, end_call, memory_needs, rule_for, staging_address, ConversionError, Converter,
};
use rine::wait::{classify_wait_status, on_wait, LoopAction, Phase, StopEvent};

fn regs(nr: u64, rdi: u64, rsi: u64, rdx: u64) -> RegisterSet {
    RegisterSet { orig_rax: nr, rdi, rsi, rdx, r10: 0, r8: 0, r9: 0, rax: 0, rsp: 0x7fff_1234 }
}

fn text(v: Vec<u8>) -> String {
    String::from_utf8(v).unwrap()
}

#[test]
fn write_then_exit_runs_as_host_write_and_exit() {
    let w = regs(abi::SYS_WRITE, 2, 0x4000, 11);
    let plan = begin_call(&w, &[], &[]).unwrap();
    assert_eq!(plan.host, RegisterSet { orig_rax: 1, ..w });
    assert!(plan.staging.is_none());
    let exit_regs = RegisterSet { rax: 11, ..plan.host };
    let end = end_call(&plan, &exit_regs, &[]).unwrap();
    assert_eq!(end.regs, RegisterSet { rax: 11, ..w });
    assert!(end.writes.is_empty());
    let e = regs(abi::SYS_EXIT, 0, 0, 0);
    let plan = begin_call(&e, &[], &[]).unwrap();
    assert_eq!(plan.host.orig_rax, 60);
    assert_eq!(plan.host.rdi, 0);
    // The host reports the guest's exit with status 0.
    assert_eq!(on_wait(Phase::AwaitExit, 0), (Phase::Done, LoopAction::Exit(0)));
}

#[test]
fn open_null_scheme_runs_host_open_on_null_device_read_only() {
    let r = regs(abi::SYS_OPEN, 0x5000, 12, abi::O_RDONLY);
    let needs = memory_needs(&r);
    assert_eq!(needs.path, Some((0x5000, 12)));
    let page = 0x7fff_1000u64;
    assert_eq!(needs.staging_page, Some(page));
    let saved = vec![0xabu8; 4096];
    let plan = begin_call(&r, b"null:ignored", &saved).unwrap();
    assert_eq!(plan.host.orig_rax, 2);
    assert_eq!(plan.host.rdi, page);
    assert_eq!(plan.host.rsi, libc::O_RDONLY as u64);
    assert_eq!(plan.host.rdx, 0);
    let st = plan.staging.as_ref().unwrap();
    assert_eq!(st.staged, b"/dev/null\0".to_vec());
    assert!(!plan.unknown_scheme);
    // The host returned descriptor 3; the guest sees its own arguments back.
    let end = end_call(&plan, &RegisterSet { rax: 3, ..plan.host }, &[]).unwrap();
    assert_eq!(end.regs, RegisterSet { rax: 3, ..r });
    assert_eq!(end.writes.len(), 1);
    assert_eq!(end.writes[0].addr, page);
    assert_eq!(end.writes[0].bytes, saved);
}

#[test]
fn fstat_hands_the_guest_the_host_size() {
    let r = regs(abi::SYS_FSTAT, 3, 0x6000, GUEST_STAT_SIZE);
    let saved: Vec<u8> = (0..4096u32).map(|i| i as u8).collect();
    let plan = begin_call(&r, &[], &saved).unwrap();
    assert_eq!(plan.host.orig_rax, 5);
    assert_eq!(plan.host.rsi, 0x7fff_1000);
    let now = host_bytes(123_456);
    let end = end_call(&plan, &RegisterSet { rax: 0, ..plan.host }, &now).unwrap();
    assert_eq!(end.writes.len(), 2);
    // The staging page is restored first, then the guest's buffer is filled.
    assert_eq!(end.writes[0].addr, 0x7fff_1000);
    assert_eq!(end.writes[0].bytes, saved);
    assert_eq!(end.writes[1].addr, 0x6000);
    let s = Stat::from_bytes(&end.writes[1].bytes);
    assert_eq!(s.st_size, 123_456);
    assert_eq!(end.regs, RegisterSet { rax: 0, ..r });
}

#[test]
fn failed_fstat_restores_only_the_staging_page() {
    let r = regs(abi::SYS_FSTAT, 99, 0x6000, GUEST_STAT_SIZE);
    let saved = vec![7u8; 4096];
    let plan = begin_call(&r, &[], &saved).unwrap();
    let ebadf = (-9i64) as u64;
    let end = end_call(&plan, &RegisterSet { rax: ebadf, ..plan.host }, &[]).unwrap();
    assert_eq!(end.writes.len(), 1);
    assert_eq!(end.writes[0].bytes, saved);
    assert_eq!(end.regs.rax, ebadf);
}

#[test]
fn fstat_output_is_cut_to_the_guest_buffer() {
    let r = regs(abi::SYS_FSTAT, 3, 0x6000, 40);
    let plan = begin_call(&r, &[], &vec![0u8; 4096]).unwrap();
    let end = end_call(&plan, &RegisterSet { rax: 0, ..plan.host }, &host_bytes(5)).unwrap();
    assert_eq!(end.writes[1].bytes.len(), 40);
    assert_eq!(&end.writes[1].bytes[32..40], &5u64.to_le_bytes());
}

#[test]
fn conversion_errors() {
    let r = regs(abi::SYS_OPEN, 0x5000, 4, abi::O_RDONLY);
    assert!(matches!(begin_call(&r, b"null", &vec![0u8; 100]), Err(ConversionError::ShortRead)));
    assert!(matches!(begin_call(&r, b"nu", &vec![0u8; 4096]), Err(ConversionError::ShortRead)));
    let long = vec![b'a'; 4096];
    let r = regs(abi::SYS_OPEN, 0x5000, 4096, abi::O_RDONLY);
    assert!(matches!(begin_call(&r, &long, &vec![0u8; 4096]), Err(ConversionError::PathTooLong)));
    let f = regs(abi::SYS_FSTAT, 3, 0x6000, GUEST_STAT_SIZE);
    let plan = begin_call(&f, &[], &vec![0u8; 4096]).unwrap();
    assert!(matches!(
        end_call(&plan, &RegisterSet { rax: 0, ..plan.host }, &[0u8; 10]),
        Err(ConversionError::ShortRead)
    ));
}

#[test]
fn unknown_call_passes_through_with_host_error() {
    let r = regs(9999, 1, 2, 3);
    let rule = rule_for(9999);
    assert_eq!(rule.host_nr, 9999);
    assert_eq!(rule.converter, Converter::Plain);
    let plan = begin_call(&r, &[], &[]).unwrap();
    assert_eq!(plan.host, r);
    let enosys = (-38i64) as u64;
    let end = end_call(&plan, &RegisterSet { rax: enosys, ..r }, &[]).unwrap();
    assert_eq!(end.regs.rax, enosys);
}

#[test]
fn staging_address_is_the_stack_page() {
    assert_eq!(staging_address(0x7fff_1234), 0x7fff_1000);
    assert_eq!(staging_address(0x7fff_1000), 0x7fff_1000);
}

#[test]
fn wait_statuses() {
    assert_eq!(classify_wait_status(0x857f), StopEvent::SyscallStop);
    assert_eq!(classify_wait_status(0x137f), StopEvent::Stopped(19));
    assert_eq!(classify_wait_status(0x0009), StopEvent::Signaled(9));
    assert_eq!(classify_wait_status(0x0100), StopEvent::Exited(1));
    assert_eq!(classify_wait_status(0), StopEvent::Exited(0));
    assert_eq!(classify_wait_status(0xffff), StopEvent::Other);
    assert_eq!(on_wait(Phase::AwaitEntry, 0x857f), (Phase::AwaitExit, LoopAction::TranslateEntry));
    assert_eq!(on_wait(Phase::AwaitExit, 0x857f), (Phase::AwaitEntry, LoopAction::FinishCall));
    assert_eq!(on_wait(Phase::AwaitEntry, 0x137f), (Phase::AwaitEntry, LoopAction::Resume));
    assert_eq!(on_wait(Phase::AwaitEntry, 0x0009), (Phase::Done, LoopAction::Killed(9)));
}

#[test]
fn result_decoding() {
    let mut p = Process::new(42);
    assert_eq!(p.pid(), 42);
    p.regs.rax = 3;
    assert_eq!(p.result(), Ok(3));
    p.regs.rax = (-2i64) as u64;
    assert_eq!(p.result(), Err(Error { errno: 2 }));
    p.regs.rax = (-200i64) as u64;
    assert_eq!(p.result(), Ok((-200i64) as u64 as usize));
    assert_eq!(text(format_result(&Ok(255))), "Ok(255) Ok(0xff)");
    assert_eq!(text(format_result(&Err(Error { errno: 2 }))), "Err(2)");
}

#[test]
fn register_setters() {
    let mut p = Process::new(1);
    p.set_nr(5);
    p.set_b(1);
    p.set_c(2);
    p.set_d(3);
    p.set_e(4);
    p.set_f(6);
    assert_eq!(p.args(), (5, 1, 2, 3, 4, 6));
    p.set_a(7);
    assert_eq!(p.args().0, 7);
}

fn args(a: u64, b: u64, c: u64, d: u64, e: u64, f: u64) -> [u64; 6] {
    [a, b, c, d, e, f]
}

#[test]
fn format_plain_calls() {
    let none = Vec::new();
    assert_eq!(text(format_call(&args(abi::SYS_WRITE, 2, 0x1000, 5, 0, 0), &vec![None, None, None])), "write(2, 0x1000, 5)");
    assert_eq!(text(format_call(&args(abi::SYS_GETPID, 0, 0, 0, 0, 0), &none)), "getpid()");
    assert_eq!(text(format_call(&args(abi::SYS_UMASK, 0o22, 0, 0, 0, 0), &none)), "umask(0o22)");
    assert_eq!(text(format_call(&args(abi::SYS_LSEEK, 3, (-4i64) as u64, 2, 0, 0), &none)), "lseek(3, -4, SEEK_END (2))");
    assert_eq!(text(format_call(&args(abi::SYS_FCNTL, 3, 9, 1, 0, 0), &none)), "fcntl(3, UNKNOWN (9), 0x1)");
    assert_eq!(text(format_call(&args(abi::SYS_NANOSLEEP, 0, 1, 2, 0, 0), &none)), "nanosleep(<unavailable>, (1, 2))");
    assert_eq!(
        text(format_call(&args(99, 1, 2, 3, 4, 5), &none)),
        "UNKNOWN99 0x63(0x1, 0x2, 0x3, 0x4, 0x5)"
    );
}

#[test]
fn format_calls_with_payloads() {
    let a = args(abi::SYS_OPEN, 0x5000, 12, abi::O_RDONLY, 0, 0);
    assert_eq!(payload_requests(&a), vec![Some((0x5000, 12)), None]);
    let p = vec![Some(b"null:\tx\"\x01".to_vec()), None];
    assert_eq!(text(format_call(&a, &p)), "open(\"null:\\tx\\\"\\x01\", 0x10000)");
    let p = vec![None, None];
    assert_eq!(text(format_call(&a, &p)), "open(<unavailable>, 0x10000)");
    let f = args(abi::SYS_FUTEX, 0x10, 0, 1, 0, 0);
    assert_eq!(payload_requests(&f)[0], Some((0x10, 4)));
    let p = vec![Some((-5i32).to_le_bytes().to_vec()), None, None, None, None];
    assert_eq!(text(format_call(&f, &p)), "futex(0x10 [-5], 0, 1, 0, 0)");
    let pipe = args(abi::SYS_PIPE2, 0x20, 0, 0, 0, 0);
    let mut words = 3u64.to_le_bytes().to_vec();
    words.extend_from_slice(&4u64.to_le_bytes());
    assert_eq!(text(format_call(&pipe, &vec![Some(words), None])), "pipe2([3, 4], 0)");
    let fexec = args(abi::SYS_FEXEC, 3, 0x30, u64::MAX, 0x40, 2);
    assert_eq!(payload_requests(&fexec), vec![None, None, Some((0x40, 32))]);
    let fstat = args(abi::SYS_FSTAT, 3, 0x50, 110, 0, 0);
    assert_eq!(payload_requests(&fstat)[1], Some((0x50, 104)));
}

#[test]
fn format_structures() {
    let ts = args(abi::SYS_CLOCK_GETTIME, 1, 0x70, 0, 0, 0);
    assert_eq!(payload_requests(&ts)[1], Some((0x70, 16)));
    let mut b = 5i64.to_le_bytes().to_vec();
    b.extend_from_slice(&(-7i32).to_le_bytes());
    b.extend_from_slice(&[0u8; 4]);
    assert_eq!(
        text(format_call(&ts, &vec![None, Some(b)])),
        "clock_gettime(1, [TimeSpec { tv_sec: 5, tv_nsec: -7 }])"
    );
    let st = Stat::from_bytes(&vec![0u8; 104]);
    let s = Stat { st_size: 10, st_mode: 0o644, ..st };
    let f = args(abi::SYS_FSTAT, 3, 0x80, 104, 0, 0);
    assert_eq!(
        text(format_call(&f, &vec![None, Some(s.to_bytes())])),
        "fstat(3, [Stat { st_dev: 0, st_ino: 0, st_mode: 420, st_nlink: 0, st_uid: 0, st_gid: 0, \
st_size: 10, st_blksize: 0, st_blocks: 0, st_mtime: 0, st_mtime_nsec: 0, st_atime: 0, \
st_atime_nsec: 0, st_ctime: 0, st_ctime_nsec: 0 }])"
    );
    let m = args(abi::SYS_FMAP, 4, 0x90, 50, 0, 0);
    assert_eq!(payload_requests(&m)[1], Some((0x90, 48)));
    let mut b = Vec::new();
    for v in [1u64, 2, 3, 4, 5, 6] {
        b.extend_from_slice(&v.to_le_bytes());
    }
    assert_eq!(
        text(format_call(&m, &vec![None, Some(b)])),
        "fmap(4, [Map { offset: 1, size: 2, flags: 3 }, Map { offset: 4, size: 5, flags: 6 }])"
    );
}

#[test]
fn escapes() {
    let all = |c: u8| {
        let mut e = escape_default(c);
        let mut v = Vec::new();
        while let Some(b) = e.next() {
            v.push(b);
        }
        String::from_utf8(v).unwrap()
    };
    assert_eq!(all(b'a'), "a");
    assert_eq!(all(b'\n'), "\\n");
    assert_eq!(all(b'\\'), "\\\\");
    assert_eq!(all(b'\''), "\\'");
    assert_eq!(all(0), "\\x00");
    assert_eq!(all(0xff), "\\xff");
    assert_eq!(escape_default(0x7f).size_hint(), (4, Some(4)));
}

fn host_bytes(size: i64) -> Vec<u8> {
    let mut b = vec![0u8; 144];
    b[48..56].copy_from_slice(&size.to_le_bytes());
    b[24..28].copy_from_slice(&0o100644u32.to_le_bytes());
    b
}
