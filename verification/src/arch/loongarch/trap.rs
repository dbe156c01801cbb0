//! The register state that a trap saves on LoongArch.

use vstd::prelude::*;

verus! {

/// The general-purpose registers.
#[derive(Clone, Copy, Debug, PartialEq, Eq, Structural)]
pub struct GeneralRegs {
    pub zero: usize,
    pub ra: usize,
    pub tp: usize,
    pub sp: usize,
    pub a0: usize,
    pub a1: usize,
    pub a2: usize,
    pub a3: usize,
    pub a4: usize,
    pub a5: usize,
    pub a6: usize,
    pub a7: usize,
    pub t0: usize,
    pub t1: usize,
    pub t2: usize,
    pub t3: usize,
    pub t4: usize,
    pub t5: usize,
    pub t6: usize,
    pub t7: usize,
    pub t8: usize,
    pub u0: usize,
    pub fp: usize,
    pub s0: usize,
    pub s1: usize,
    pub s2: usize,
    pub s3: usize,
    pub s4: usize,
    pub s5: usize,
    pub s6: usize,
    pub s7: usize,
    pub s8: usize,
}

impl GeneralRegs {
    /// The register file with every register zero.
    pub open spec fn zeroed() -> Self {
        GeneralRegs {
            zero: 0,
            ra: 0,
            tp: 0,
            sp: 0,
            a0: 0,
            a1: 0,
            a2: 0,
            a3: 0,
            a4: 0,
            a5: 0,
            a6: 0,
            a7: 0,
            t0: 0,
            t1: 0,
            t2: 0,
            t3: 0,
            t4: 0,
            t5: 0,
            t6: 0,
            t7: 0,
            t8: 0,
            u0: 0,
            fp: 0,
            s0: 0,
            s1: 0,
            s2: 0,
            s3: 0,
            s4: 0,
            s5: 0,
            s6: 0,
            s7: 0,
            s8: 0,
        }
    }
}

impl Default for GeneralRegs {
    fn default() -> (r: Self)
        ensures
            r == Self::zeroed(),
    {
        GeneralRegs {
            zero: 0,
            ra: 0,
            tp: 0,
            sp: 0,
            a0: 0,
            a1: 0,
            a2: 0,
            a3: 0,
            a4: 0,
            a5: 0,
            a6: 0,
            a7: 0,
            t0: 0,
            t1: 0,
            t2: 0,
            t3: 0,
            t4: 0,
            t5: 0,
            t6: 0,
            t7: 0,
            t8: 0,
            u0: 0,
            fp: 0,
            s0: 0,
            s1: 0,
            s2: 0,
            s3: 0,
            s4: 0,
            s5: 0,
            s6: 0,
            s7: 0,
            s8: 0,
        }
    }
}

/// What an interrupt callback sees of the interrupted program: a copy of
/// the registers, never the registers themselves.
#[derive(Clone, Copy, Debug, PartialEq, Eq, Structural)]
pub struct TrapFrame {
    /// The general-purpose registers.
    pub general: GeneralRegs,
    /// The privilege mode and interrupt enable before the trap.
    pub prmd: usize,
    /// The address at which execution resumes.
    pub era: usize,
    /// The enables of the extended units; bit 0 enables the floating-point unit.
    pub euen: usize,
}

impl Default for TrapFrame {
    fn default() -> (r: Self)
        ensures
            r.general == GeneralRegs::zeroed(),
            r.prmd == 0,
            r.era == 0,
            r.euen == 0,
    {
        TrapFrame {
            general: GeneralRegs::default(),
            prmd: 0,
            era: 0,
            euen: 0,
        }
    }
}

/// The registers of a user program while it is not running.
#[derive(Clone, Copy, Debug, PartialEq, Eq, Structural)]
pub struct UserContext {
    /// The general-purpose registers.
    pub general: GeneralRegs,
    /// The privilege mode and interrupt enable before the trap.
    pub prmd: usize,
    /// The address at which execution resumes.
    pub era: usize,
    /// The enables of the extended units; bit 0 enables the floating-point unit.
    pub euen: usize,
}

impl Default for UserContext {
    fn default() -> (r: Self)
        ensures
            r.general == GeneralRegs::zeroed(),
            r.prmd == 0,
            r.era == 0,
            r.euen == 0,
    {
        UserContext {
            general: GeneralRegs::default(),
            prmd: 0,
            era: 0,
            euen: 0,
        }
    }
}

impl UserContext {
    /// The number of the system call that the program asks for.
    pub fn get_syscall_num(&self) -> (r: usize)
        ensures
            r == self.general.a7,
    {
        self.general.a7
    }

    /// The value that the last system call returned.
    pub fn get_syscall_ret(&self) -> (r: usize)
        ensures
            r == self.general.a0,
    {
        self.general.a0
    }

    /// Sets the value that the system call returns. Nothing else changes.
    pub fn set_syscall_ret(&mut self, ret: usize)
        ensures
            *final(self) == (UserContext {
                general: GeneralRegs { a0: ret, ..old(self).general },
                ..*old(self)
            }),
    {
        self.general.a0 = ret;
    }

    /// The six arguments of the system call, in order.
    pub fn get_syscall_args(&self) -> (r: [usize; 6])
        ensures
            r@ == seq![
                self.general.a0,
                self.general.a1,
                self.general.a2,
                self.general.a3,
                self.general.a4,
                self.general.a5,
            ],
    {
        [
            self.general.a0,
            self.general.a1,
            self.general.a2,
            self.general.a3,
            self.general.a4,
            self.general.a5,
        ]
    }

    /// The instruction pointer.
    pub fn get_ip(&self) -> (r: usize)
        ensures
            r == self.era,
    {
        self.era
    }

    /// Sets the instruction pointer. Nothing else changes.
    pub fn set_ip(&mut self, ip: usize)
        ensures
            *final(self) == (UserContext { era: ip, ..*old(self) }),
    {
        self.era = ip;
    }

    /// Sets the stack pointer. Nothing else changes.
    pub fn set_sp(&mut self, sp: usize)
        ensures
            *final(self) == (UserContext {
                general: GeneralRegs { sp: sp, ..old(self).general },
                ..*old(self)
            }),
    {
        self.general.sp = sp;
    }

    /// The stack pointer.
    pub fn get_sp(&self) -> (r: usize)
        ensures
            r == self.general.sp,
    {
        self.general.sp
    }

    /// Sets the thread-local storage pointer. Nothing else changes.
    pub fn set_tls(&mut self, tls: usize)
        ensures
            *final(self) == (UserContext {
                general: GeneralRegs { tp: tls, ..old(self).general },
                ..*old(self)
            }),
    {
        self.general.tp = tls;
    }
}


/// Whether the caller runs inside an interrupt handler that interrupted
/// kernel code. This backend takes no interrupt in kernel mode.
pub fn is_kernel_interrupted() -> (r: bool)
    ensures
        !r,
{
    false
}

} // verus!
