//! The traced process's register set, named by the role each register plays in
//! a system call, and the decoding of a call's return value.
use vstd::prelude::*;

verus! {

/// Errors above this number are not error numbers of the guest ABI.
pub const ERRNO_LIMIT: i32 = 132;

/// The registers of a traced process that a system call reads or writes
/// (x86_64: number in `orig_rax`, arguments in `rdi`, `rsi`, `rdx`, `r10`,
/// `r8`, `r9`, result in `rax`), and the stack pointer.
#[derive(Clone, Copy, Debug, PartialEq, Eq, Structural)]
pub struct RegisterSet {
    pub orig_rax: u64,
    pub rdi: u64,
    pub rsi: u64,
    pub rdx: u64,
    pub r10: u64,
    pub r8: u64,
    pub r9: u64,
    pub rax: u64,
    pub rsp: u64,
}

impl RegisterSet {
    pub open spec fn zeroed_spec() -> RegisterSet {
        RegisterSet { orig_rax: 0, rdi: 0, rsi: 0, rdx: 0, r10: 0, r8: 0, r9: 0, rax: 0, rsp: 0 }
    }

    pub fn zeroed() -> (r: RegisterSet)
        ensures
            r == RegisterSet::zeroed_spec(),
    {
        RegisterSet { orig_rax: 0, rdi: 0, rsi: 0, rdx: 0, r10: 0, r8: 0, r9: 0, rax: 0, rsp: 0 }
    }
}

/// A guest error number, as a call's result reports it.
#[derive(Clone, Copy, Debug, PartialEq, Eq, Structural)]
pub struct Error {
    pub errno: i32,
}

/// A call's result: an error where the value is the negation of a guest error
/// number, else the value itself.
pub open spec fn demux_spec(value: usize) -> Result<usize, Error> {
    let v = value as i32;
    if -ERRNO_LIMIT < v && v <= -1 {
        Err(Error { errno: (-v) as i32 })
    } else {
        Ok(value)
    }
}

impl Error {
    /// Splits a raw call result into a value or an error number.
    pub fn demux(value: usize) -> (r: Result<usize, Error>)
        ensures
            r == demux_spec(value),
    {
        let v = value as i32;
        if -ERRNO_LIMIT < v && v <= -1 {
            Err(Error { errno: -v })
        } else {
            Ok(value)
        }
    }
}

/// A traced process: its identifier and its registers as last fetched.
pub struct Process {
    pub pid: i32,
    pub regs: RegisterSet,
}

impl Process {
    pub open spec fn pid_spec(&self) -> i32 {
        self.pid
    }

    pub fn new(pid: i32) -> (r: Process)
        ensures
            r.pid_spec() == pid,
            r.regs == RegisterSet::zeroed_spec(),
    {
        Process { pid, regs: RegisterSet::zeroed() }
    }

    pub fn pid(&self) -> (r: i32)
        ensures
            r == self.pid_spec(),
    {
        self.pid
    }

    /// The call number and the first five arguments.
    pub fn args(&self) -> (r: (u64, u64, u64, u64, u64, u64))
        ensures
            r == (self.regs.orig_rax, self.regs.rdi, self.regs.rsi, self.regs.rdx, self.regs.r10,
                self.regs.r8),
    {
        (self.regs.orig_rax, self.regs.rdi, self.regs.rsi, self.regs.rdx, self.regs.r10, self.regs.r8)
    }

    pub fn set_nr(&mut self, nr: usize)
        ensures
            final(self).pid_spec() == old(self).pid_spec(),
            final(self).regs == (RegisterSet { orig_rax: nr as u64, ..old(self).regs }),
    {
        self.set_a(nr as u64);
    }

    pub fn set_a(&mut self, value: u64)
        ensures
            final(self).pid_spec() == old(self).pid_spec(),
            final(self).regs == (RegisterSet { orig_rax: value, ..old(self).regs }),
    {
        self.regs.orig_rax = value;
    }

    pub fn set_b(&mut self, value: u64)
        ensures
            final(self).pid_spec() == old(self).pid_spec(),
            final(self).regs == (RegisterSet { rdi: value, ..old(self).regs }),
    {
        self.regs.rdi = value;
    }

    pub fn set_c(&mut self, value: u64)
        ensures
            final(self).pid_spec() == old(self).pid_spec(),
            final(self).regs == (RegisterSet { rsi: value, ..old(self).regs }),
    {
        self.regs.rsi = value;
    }

    pub fn set_d(&mut self, value: u64)
        ensures
            final(self).pid_spec() == old(self).pid_spec(),
            final(self).regs == (RegisterSet { rdx: value, ..old(self).regs }),
    {
        self.regs.rdx = value;
    }

    pub fn set_e(&mut self, value: u64)
        ensures
            final(self).pid_spec() == old(self).pid_spec(),
            final(self).regs == (RegisterSet { r10: value, ..old(self).regs }),
    {
        self.regs.r10 = value;
    }

    pub fn set_f(&mut self, value: u64)
        ensures
            final(self).pid_spec() == old(self).pid_spec(),
            final(self).regs == (RegisterSet { r8: value, ..old(self).regs }),
    {
        self.regs.r8 = value;
    }

    /// The result of the last call, as the guest reads it.
    pub fn result(&self) -> (r: Result<usize, Error>)
        ensures
            r == demux_spec(self.regs.rax as usize),
    {
        Error::demux(self.regs.rax as usize)
    }
}

} // verus!
