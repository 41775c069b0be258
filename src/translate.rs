//! The ABI translator: a table from guest call numbers to conversion rules,
//! and the plan that carries one call instance from its entry stop (rewritten
//! registers, staged bytes) to its exit stop (restored registers and staging
//! page, converted output).
use vstd::prelude::*;
use crate::abi::{
    NR_BRK, NR_EXIT, NR_FSTAT, NR_GETPID, NR_OPEN, NR_READ, NR_WRITE, PAGE_SIZE, SYS_BRK,
    SYS_EXIT, SYS_FSTAT, SYS_GETPID, SYS_OPEN, SYS_READ, SYS_WRITE,
};
use crate::flags::{convert_open, host_open_flags, open_mode};
use crate::path::{convert_path, has_scheme, is_unknown_scheme, known_scheme, translate_path};
use crate::regs::RegisterSet;
use crate::stat::{
    convert_stat, guest_stat_bytes, host_stat_at, host_to_guest, GUEST_STAT_SIZE, HOST_STAT_SIZE,
};

verus! {

/// How a call's arguments and data are converted.
#[derive(Clone, Copy, Debug, PartialEq, Eq, Structural)]
pub enum Converter {
    /// Arguments are passed as they are.
    Plain,
    /// The path is rewritten and staged, the flags are converted.
    Open,
    /// The host structure is received in the staging page and converted.
    Fstat,
}

/// The host call that stands for a guest call, and how it is converted.
#[derive(Clone, Copy, Debug, PartialEq, Eq, Structural)]
pub struct ConversionRule {
    pub host_nr: u64,
    pub converter: Converter,
}

/// Whether the table holds a rule for the guest call number.
pub open spec fn in_table(nr: u64) -> bool {
    nr == SYS_GETPID || nr == SYS_BRK || nr == SYS_WRITE || nr == SYS_EXIT || nr == SYS_READ || nr
        == SYS_OPEN || nr == SYS_FSTAT
}

pub open spec fn rule_spec(nr: u64) -> ConversionRule {
    if nr == SYS_GETPID {
        ConversionRule { host_nr: NR_GETPID, converter: Converter::Plain }
    } else if nr == SYS_BRK {
        ConversionRule { host_nr: NR_BRK, converter: Converter::Plain }
    } else if nr == SYS_WRITE {
        ConversionRule { host_nr: NR_WRITE, converter: Converter::Plain }
    } else if nr == SYS_EXIT {
        ConversionRule { host_nr: NR_EXIT, converter: Converter::Plain }
    } else if nr == SYS_READ {
        ConversionRule { host_nr: NR_READ, converter: Converter::Plain }
    } else if nr == SYS_OPEN {
        ConversionRule { host_nr: NR_OPEN, converter: Converter::Open }
    } else if nr == SYS_FSTAT {
        ConversionRule { host_nr: NR_FSTAT, converter: Converter::Fstat }
    } else {
        ConversionRule { host_nr: nr, converter: Converter::Plain }
    }
}

/// The rule for a guest call number; a number outside the table is passed
/// through unchanged.
pub fn rule_for(nr: u64) -> (r: ConversionRule)
    ensures
        r == rule_spec(nr),
{
    if nr == SYS_GETPID {
        ConversionRule { host_nr: NR_GETPID, converter: Converter::Plain }
    } else if nr == SYS_BRK {
        ConversionRule { host_nr: NR_BRK, converter: Converter::Plain }
    } else if nr == SYS_WRITE {
        ConversionRule { host_nr: NR_WRITE, converter: Converter::Plain }
    } else if nr == SYS_EXIT {
        ConversionRule { host_nr: NR_EXIT, converter: Converter::Plain }
    } else if nr == SYS_READ {
        ConversionRule { host_nr: NR_READ, converter: Converter::Plain }
    } else if nr == SYS_OPEN {
        ConversionRule { host_nr: NR_OPEN, converter: Converter::Open }
    } else if nr == SYS_FSTAT {
        ConversionRule { host_nr: NR_FSTAT, converter: Converter::Fstat }
    } else {
        ConversionRule { host_nr: nr, converter: Converter::Plain }
    }
}

/// The start of the stack page that holds the stack pointer.
pub open spec fn staging_address_spec(rsp: u64) -> u64 {
    rsp & 0xffff_ffff_ffff_f000u64
}

pub fn staging_address(rsp: u64) -> (r: u64)
    ensures
        r == staging_address_spec(rsp),
{
    rsp & 0xffff_ffff_ffff_f000u64
}

/// What must be read from the guest before a call can be translated.
#[derive(Clone, Copy, Debug, PartialEq, Eq)]
pub struct MemoryNeeds {
    /// The path argument: address and length.
    pub path: Option<(u64, u64)>,
    /// The staging page, whose contents must be saved.
    pub staging_page: Option<u64>,
}

pub open spec fn needs_spec(regs: RegisterSet) -> MemoryNeeds {
    match rule_spec(regs.orig_rax).converter {
        Converter::Plain => MemoryNeeds { path: None, staging_page: None },
        Converter::Open => MemoryNeeds {
            path: Some((regs.rdi, regs.rsi)),
            staging_page: Some(staging_address_spec(regs.rsp)),
        },
        Converter::Fstat => MemoryNeeds {
            path: None,
            staging_page: Some(staging_address_spec(regs.rsp)),
        },
    }
}

pub fn memory_needs(regs: &RegisterSet) -> (r: MemoryNeeds)
    ensures
        r == needs_spec(*regs),
{
    match rule_for(regs.orig_rax).converter {
        Converter::Plain => MemoryNeeds { path: None, staging_page: None },
        Converter::Open => MemoryNeeds {
            path: Some((regs.rdi, regs.rsi)),
            staging_page: Some(staging_address(regs.rsp)),
        },
        Converter::Fstat => MemoryNeeds {
            path: None,
            staging_page: Some(staging_address(regs.rsp)),
        },
    }
}

/// Why a call could not be converted; the session cannot go on safely.
#[derive(Clone, Copy, Debug, PartialEq, Eq, Structural)]
pub enum ConversionError {
    /// Fewer bytes were read from the guest than were asked for.
    ShortRead,
    /// The converted path does not fit in the staging page.
    PathTooLong,
}

/// The staging page of one call: where it is, what it held, and what is
/// written to it before the host call.
pub struct Staging {
    pub addr: u64,
    pub saved: Vec<u8>,
    pub staged: Vec<u8>,
}

/// One call instance, translated at its entry stop.
pub struct CallPlan {
    /// The guest's registers at the entry stop.
    pub entry: RegisterSet,
    /// The registers that the host call runs with.
    pub host: RegisterSet,
    pub rule: ConversionRule,
    pub staging: Option<Staging>,
    /// The path named a scheme that the host has no device for.
    pub unknown_scheme: bool,
}

impl CallPlan {
    /// A plan as `begin_call` makes it: staging exactly where a converter needs
    /// it, holding a whole saved page.
    pub open spec fn wf(&self) -> bool {
        &&& (self.rule.converter == Converter::Plain) == (self.staging is None)
        &&& self.staging is Some ==> self.staging->Some_0.saved@.len() == PAGE_SIZE
    }
}

/// The registers of a plain call: the call number replaced, nothing else.
pub open spec fn plain_host_regs(regs: RegisterSet) -> RegisterSet {
    RegisterSet { orig_rax: rule_spec(regs.orig_rax).host_nr, ..regs }
}

/// The registers of the host's open: path redirected to the staging page,
/// flags and mode converted.
pub open spec fn open_host_regs(regs: RegisterSet) -> RegisterSet {
    RegisterSet {
        orig_rax: NR_OPEN,
        rdi: staging_address_spec(regs.rsp),
        rsi: host_open_flags(regs.rdx),
        rdx: open_mode(regs.rdx),
        ..regs
    }
}

/// The registers of the host's fstat: output redirected to the staging page.
pub open spec fn fstat_host_regs(regs: RegisterSet) -> RegisterSet {
    RegisterSet { orig_rax: NR_FSTAT, rsi: staging_address_spec(regs.rsp), ..regs }
}

/// The plan's staging page is the one of the stack pointer, saved whole, and
/// `staged` is written to it before the host call.
pub open spec fn staged_plan(p: CallPlan, regs: RegisterSet, saved: Seq<u8>, staged: Seq<u8>) -> bool {
    &&& p.staging is Some
    &&& p.staging->Some_0.addr == staging_address_spec(regs.rsp)
    &&& p.staging->Some_0.saved@ == saved
    &&& p.staging->Some_0.staged@ == staged
}

/// Translates a call at its entry stop. `path` and `saved_page` are what was
/// read from the guest as `memory_needs` asked (empty where nothing was asked).
pub fn begin_call(regs: &RegisterSet, path: &[u8], saved_page: &[u8]) -> (r: Result<
    CallPlan,
    ConversionError,
>)
    ensures
        match rule_spec(regs.orig_rax).converter {
            Converter::Plain => r is Ok && r->Ok_0.host == plain_host_regs(*regs)
                && r->Ok_0.staging is None && !r->Ok_0.unknown_scheme,
            Converter::Open => if saved_page@.len() != PAGE_SIZE || path@.len() != regs.rsi {
                r == Err::<CallPlan, ConversionError>(ConversionError::ShortRead)
            } else if translate_path(path@).len() > PAGE_SIZE {
                r == Err::<CallPlan, ConversionError>(ConversionError::PathTooLong)
            } else {
                r is Ok && staged_plan(r->Ok_0, *regs, saved_page@, translate_path(path@))
                    && r->Ok_0.host == open_host_regs(*regs) && r->Ok_0.unknown_scheme == (
                has_scheme(path@) && !known_scheme(path@))
            },
            Converter::Fstat => if saved_page@.len() != PAGE_SIZE {
                r == Err::<CallPlan, ConversionError>(ConversionError::ShortRead)
            } else {
                r is Ok && staged_plan(r->Ok_0, *regs, saved_page@, Seq::empty())
                    && r->Ok_0.host == fstat_host_regs(*regs) && !r->Ok_0.unknown_scheme
            },
        },
        r is Ok ==> r->Ok_0.entry == *regs && r->Ok_0.rule == rule_spec(regs.orig_rax)
            && r->Ok_0.wf(),
{
    let rule = rule_for(regs.orig_rax);
    match rule.converter {
        Converter::Plain => {
            let mut host = *regs;
            host.orig_rax = rule.host_nr;
            Ok(CallPlan { entry: *regs, host, rule, staging: None, unknown_scheme: false })
        },
        Converter::Open => {
            if saved_page.len() as u64 != PAGE_SIZE || path.len() as u64 != regs.rsi {
                return Err(ConversionError::ShortRead);
            }
            let lpath = convert_path(path);
            if lpath.len() as u64 > PAGE_SIZE {
                return Err(ConversionError::PathTooLong);
            }
            let addr = staging_address(regs.rsp);
            let (oflag, mode) = convert_open(regs.rdx);
            let mut host = *regs;
            host.orig_rax = NR_OPEN;
            host.rdi = addr;
            host.rsi = oflag;
            host.rdx = mode;
            let saved = crate::bytes::copy_bytes(saved_page);
            let unknown_scheme = is_unknown_scheme(path);
            Ok(
                CallPlan {
                    entry: *regs,
                    host,
                    rule,
                    staging: Some(Staging { addr, saved, staged: lpath }),
                    unknown_scheme,
                },
            )
        },
        Converter::Fstat => {
            if saved_page.len() as u64 != PAGE_SIZE {
                return Err(ConversionError::ShortRead);
            }
            let addr = staging_address(regs.rsp);
            let mut host = *regs;
            host.orig_rax = NR_FSTAT;
            host.rsi = addr;
            let saved = crate::bytes::copy_bytes(saved_page);
            Ok(
                CallPlan {
                    entry: *regs,
                    host,
                    rule,
                    staging: Some(Staging { addr, saved, staged: Vec::new() }),
                    unknown_scheme: false,
                },
            )
        },
    }
}

/// A write into the guest's memory.
pub struct MemWrite {
    pub addr: u64,
    pub bytes: Vec<u8>,
}

/// What is done to the guest at a call's exit stop: its registers are set, then
/// the writes are made in order.
pub struct CallEnd {
    pub regs: RegisterSet,
    pub writes: Vec<MemWrite>,
}

impl CallEnd {
    pub open spec fn writes_view(&self) -> Seq<(u64, Seq<u8>)> {
        self.writes@.map_values(|w: MemWrite| (w.addr, w.bytes@))
    }
}

/// Whether the host call succeeded (a raw result that is not an error number).
pub open spec fn host_succeeded(exit: RegisterSet) -> bool {
    exit.rax < 0xffff_ffff_ffff_f001u64
}

/// The guest's registers after the call: as they were at entry, but for the
/// result.
pub open spec fn end_regs(entry: RegisterSet, exit: RegisterSet) -> RegisterSet {
    RegisterSet { rax: exit.rax, ..entry }
}

/// How many bytes of the converted structure fit in the guest's buffer.
pub open spec fn stat_output_len(entry: RegisterSet) -> nat {
    if entry.rdx < GUEST_STAT_SIZE {
        entry.rdx as nat
    } else {
        GUEST_STAT_SIZE as nat
    }
}

/// The bytes that fstat hands the guest for the host structure in `now`.
pub open spec fn stat_output(entry: RegisterSet, now: Seq<u8>) -> Seq<u8> {
    guest_stat_bytes(host_to_guest(host_stat_at(now))).take(stat_output_len(entry) as int)
}

/// The writes at a call's exit: the staging page restored, then for a
/// successful fstat the converted structure written to the guest's buffer.
pub open spec fn end_writes(plan: CallPlan, exit: RegisterSet, now: Seq<u8>) -> Seq<(u64, Seq<u8>)> {
    match plan.staging {
        None => Seq::empty(),
        Some(s) => if plan.rule.converter == Converter::Fstat && host_succeeded(exit) {
            seq![(s.addr, s.saved@), (plan.entry.rsi, stat_output(plan.entry, now))]
        } else {
            seq![(s.addr, s.saved@)]
        },
    }
}

/// Completes a call at its exit stop. `exit` holds the registers after the
/// host call; `now` is what the staging page holds then (read for fstat only:
/// `HOST_STAT_SIZE` bytes).
pub fn end_call(plan: &CallPlan, exit: &RegisterSet, now: &[u8]) -> (r: Result<
    CallEnd,
    ConversionError,
>)
    requires
        plan.wf(),
    ensures
        plan.rule.converter == Converter::Fstat && host_succeeded(*exit) && now@.len()
            < HOST_STAT_SIZE ==> r == Err::<CallEnd, ConversionError>(ConversionError::ShortRead),
        !(plan.rule.converter == Converter::Fstat && host_succeeded(*exit) && now@.len()
            < HOST_STAT_SIZE) ==> r is Ok && r->Ok_0.regs == end_regs(plan.entry, *exit)
            && r->Ok_0.writes_view() == end_writes(*plan, *exit, now@),
{
    let mut regs = plan.entry;
    regs.rax = exit.rax;
    let mut writes: Vec<MemWrite> = Vec::new();
    match &plan.staging {
        None => {},
        Some(s) => {
            let fstat_ok = plan.rule.converter == Converter::Fstat && exit.rax
                < 0xffff_ffff_ffff_f001u64;
            if fstat_ok && (now.len() as u64) < HOST_STAT_SIZE {
                return Err(ConversionError::ShortRead);
            }
            writes.push(MemWrite { addr: s.addr, bytes: crate::bytes::copy_bytes(s.saved.as_slice()) });
            if fstat_ok {
                let rstat = convert_stat(now);
                let mut out = rstat.to_bytes();
                let n: usize = if plan.entry.rdx < GUEST_STAT_SIZE {
                    plan.entry.rdx as usize
                } else {
                    GUEST_STAT_SIZE as usize
                };
                out.truncate(n);
                writes.push(MemWrite { addr: plan.entry.rsi, bytes: out });
            }
        },
    }
    let r = CallEnd { regs, writes };
    assert(r.writes_view() =~= end_writes(*plan, *exit, now@));
    Ok(r)
}

/// The guest's memory after writing `b` at `addr`.
pub open spec fn write_bytes(m: spec_fn(int) -> u8, addr: int, b: Seq<u8>) -> spec_fn(int) -> u8 {
    |i: int|
        if addr <= i < addr + b.len() {
            b[i - addr]
        } else {
            m(i)
        }
}

/// The guest's memory after the writes, made in order.
pub open spec fn apply_writes(m: spec_fn(int) -> u8, ws: Seq<(u64, Seq<u8>)>) -> spec_fn(int) -> u8
    decreases ws.len(),
{
    if ws.len() == 0 {
        m
    } else {
        apply_writes(write_bytes(m, ws[0].0 as int, ws[0].1), ws.drop_first())
    }
}

/// Whether the call itself hands the guest byte `i`: the buffer that a
/// successful fstat fills.
pub open spec fn call_output_holds(plan: CallPlan, exit: RegisterSet, i: int) -> bool {
    plan.rule.converter == Converter::Fstat && host_succeeded(exit) && plan.entry.rsi <= i
        < plan.entry.rsi + stat_output_len(plan.entry)
}

/// Whatever the staging and the host call did to the guest's memory (`during`),
/// once the exit writes are made every byte of the staging page is as it was
/// before the call (`before`, from which the page was saved), but for the
/// buffer that the call itself fills.
pub proof fn lemma_staging_restored(
    plan: CallPlan,
    exit: RegisterSet,
    now: Seq<u8>,
    end: CallEnd,
    before: spec_fn(int) -> u8,
    during: spec_fn(int) -> u8,
    i: int,
)
    requires
        plan.wf(),
        plan.staging is Some,
        forall|k: int|
            0 <= k < PAGE_SIZE ==> #[trigger] plan.staging->Some_0.saved@[k] == before(
                plan.staging->Some_0.addr + k,
            ),
        end.writes_view() == end_writes(plan, exit, now),
        plan.staging->Some_0.addr <= i < plan.staging->Some_0.addr + PAGE_SIZE,
        !call_output_holds(plan, exit, i),
    ensures
        apply_writes(during, end.writes_view())(i) == before(i),
{
    let s = plan.staging->Some_0;
    let ws = end.writes_view();
    let m1 = write_bytes(during, s.addr as int, s.saved@);
    assert(m1(i) == before(i)) by {
        assert(s.saved@[i - s.addr] == before(s.addr + (i - s.addr)));
    }
    if plan.rule.converter == Converter::Fstat && host_succeeded(exit) {
        let m2 = write_bytes(m1, plan.entry.rsi as int, stat_output(plan.entry, now));
        assert(ws.drop_first().drop_first().len() == 0);
        assert(apply_writes(m2, ws.drop_first().drop_first()) == m2);
        assert(apply_writes(during, ws) == apply_writes(m1, ws.drop_first()));
        assert(apply_writes(m1, ws.drop_first()) == apply_writes(m2, ws.drop_first().drop_first()));
    } else {
        assert(ws.drop_first().len() == 0);
        assert(apply_writes(m1, ws.drop_first()) == m1);
    }
}

/// A guest call number outside the table runs on the host as it is: same
/// number, same arguments, no staging; and the host's result, an error among
/// others, reaches the guest unchanged.
pub proof fn lemma_unknown_call_passed_through(regs: RegisterSet, exit: RegisterSet)
    requires
        !in_table(regs.orig_rax),
    ensures
        rule_spec(regs.orig_rax).converter == Converter::Plain,
        plain_host_regs(regs) == regs,
        end_regs(regs, exit).rax == exit.rax,
{
}

} // verus!
