//! Traps on RISC-V: the register state that a trap saves, and the traps
//! that interrupt the kernel itself.

pub mod plic;

use vstd::prelude::*;
use crate::arch::riscv::cpu::context::{
    class_of, classify, info_of, Cpu, CpuExceptionInfo, TrapClass, TrapRecord,
};
use crate::mm::MAX_USERSPACE_VADDR;

verus! {

/// The general-purpose registers.
#[derive(Clone, Copy, Debug, PartialEq, Eq, Structural)]
pub struct GeneralRegs {
    pub zero: usize,
    pub ra: usize,
    pub sp: usize,
    pub gp: usize,
    pub tp: usize,
    pub t0: usize,
    pub t1: usize,
    pub t2: usize,
    pub s0: usize,
    pub s1: usize,
    pub a0: usize,
    pub a1: usize,
    pub a2: usize,
    pub a3: usize,
    pub a4: usize,
    pub a5: usize,
    pub a6: usize,
    pub a7: usize,
    pub s2: usize,
    pub s3: usize,
    pub s4: usize,
    pub s5: usize,
    pub s6: usize,
    pub s7: usize,
    pub s8: usize,
    pub s9: usize,
    pub s10: usize,
    pub s11: usize,
    pub t3: usize,
    pub t4: usize,
    pub t5: usize,
    pub t6: usize,
}

impl GeneralRegs {
    /// The register file with every register zero.
    pub open spec fn zeroed() -> Self {
        GeneralRegs {
            zero: 0,
            ra: 0,
            sp: 0,
            gp: 0,
            tp: 0,
            t0: 0,
            t1: 0,
            t2: 0,
            s0: 0,
            s1: 0,
            a0: 0,
            a1: 0,
            a2: 0,
            a3: 0,
            a4: 0,
            a5: 0,
            a6: 0,
            a7: 0,
            s2: 0,
            s3: 0,
            s4: 0,
            s5: 0,
            s6: 0,
            s7: 0,
            s8: 0,
            s9: 0,
            s10: 0,
            s11: 0,
            t3: 0,
            t4: 0,
            t5: 0,
            t6: 0,
        }
    }
}

impl Default for GeneralRegs {
    fn default() -> (r: Self)
        ensures
            r == Self::zeroed(),
    {
        GeneralRegs {
            zero: 0,
            ra: 0,
            sp: 0,
            gp: 0,
            tp: 0,
            t0: 0,
            t1: 0,
            t2: 0,
            s0: 0,
            s1: 0,
            a0: 0,
            a1: 0,
            a2: 0,
            a3: 0,
            a4: 0,
            a5: 0,
            a6: 0,
            a7: 0,
            s2: 0,
            s3: 0,
            s4: 0,
            s5: 0,
            s6: 0,
            s7: 0,
            s8: 0,
            s9: 0,
            s10: 0,
            s11: 0,
            t3: 0,
            t4: 0,
            t5: 0,
            t6: 0,
        }
    }
}

/// What an interrupt callback sees of the interrupted program: a copy of
/// the registers, never the registers themselves.
#[derive(Clone, Copy, Debug, PartialEq, Eq, Structural)]
pub struct TrapFrame {
    /// The general-purpose registers.
    pub general: GeneralRegs,
    /// The supervisor status.
    pub sstatus: usize,
    /// The address at which execution resumes.
    pub sepc: usize,
}

impl Default for TrapFrame {
    fn default() -> (r: Self)
        ensures
            r.general == GeneralRegs::zeroed(),
            r.sstatus == 0,
            r.sepc == 0,
    {
        TrapFrame {
            general: GeneralRegs::default(),
            sstatus: 0,
            sepc: 0,
        }
    }
}

/// The registers of a user program while it is not running.
#[derive(Clone, Copy, Debug, PartialEq, Eq, Structural)]
pub struct UserContext {
    /// The general-purpose registers.
    pub general: GeneralRegs,
    /// The supervisor status.
    pub sstatus: usize,
    /// The address at which execution resumes.
    pub sepc: usize,
}

impl Default for UserContext {
    fn default() -> (r: Self)
        ensures
            r.general == GeneralRegs::zeroed(),
            r.sstatus == 0,
            r.sepc == 0,
    {
        UserContext {
            general: GeneralRegs::default(),
            sstatus: 0,
            sepc: 0,
        }
    }
}

impl UserContext {
    /// The number of the system call that the program asks for.
    pub fn get_syscall_num(&self) -> (r: usize)
        ensures
            r == self.general.a7,
    {
        self.general.a7
    }

    /// The value that the last system call returned.
    pub fn get_syscall_ret(&self) -> (r: usize)
        ensures
            r == self.general.a0,
    {
        self.general.a0
    }

    /// Sets the value that the system call returns. Nothing else changes.
    pub fn set_syscall_ret(&mut self, ret: usize)
        ensures
            *final(self) == (UserContext {
                general: GeneralRegs { a0: ret, ..old(self).general },
                ..*old(self)
            }),
    {
        self.general.a0 = ret;
    }

    /// The six arguments of the system call, in order.
    pub fn get_syscall_args(&self) -> (r: [usize; 6])
        ensures
            r@ == seq![
                self.general.a0,
                self.general.a1,
                self.general.a2,
                self.general.a3,
                self.general.a4,
                self.general.a5,
            ],
    {
        [
            self.general.a0,
            self.general.a1,
            self.general.a2,
            self.general.a3,
            self.general.a4,
            self.general.a5,
        ]
    }

    /// The instruction pointer.
    pub fn get_ip(&self) -> (r: usize)
        ensures
            r == self.sepc,
    {
        self.sepc
    }

    /// Sets the instruction pointer. Nothing else changes.
    pub fn set_ip(&mut self, ip: usize)
        ensures
            *final(self) == (UserContext { sepc: ip, ..*old(self) }),
    {
        self.sepc = ip;
    }

    /// Sets the stack pointer. Nothing else changes.
    pub fn set_sp(&mut self, sp: usize)
        ensures
            *final(self) == (UserContext {
                general: GeneralRegs { sp: sp, ..old(self).general },
                ..*old(self)
            }),
    {
        self.general.sp = sp;
    }

    /// The stack pointer.
    pub fn get_sp(&self) -> (r: usize)
        ensures
            r == self.general.sp,
    {
        self.general.sp
    }

    /// Sets the thread-local storage pointer. Nothing else changes.
    pub fn set_tls(&mut self, tls: usize)
        ensures
            *final(self) == (UserContext {
                general: GeneralRegs { tp: tls, ..old(self).general },
                ..*old(self)
            }),
    {
        self.general.tp = tls;
    }
}


/// The floating-point status field of `sstatus`, both bits.
pub const SSTATUS_FS_MASK: usize = 0x6000;

/// The floating-point status "initial": the unit is on and its registers
/// hold their reset values.
pub const SSTATUS_FS_INITIAL: usize = 0x2000;

/// `sstatus` with the floating-point status set to "initial".
pub open spec fn with_fs_initial(sstatus: usize) -> usize {
    (sstatus & !SSTATUS_FS_MASK) | SSTATUS_FS_INITIAL
}

/// Returns true if this function is called within the context of an IRQ handler
/// and the IRQ occurs while the CPU is executing in the kernel mode.
/// Otherwise, it returns false.
pub fn is_kernel_interrupted(cpu: &Cpu) -> (r: bool)
    ensures
        r == cpu.kernel_interrupted,
{
    cpu.kernel_interrupted
}

/// What the kernel's own trap handler decided, and what is left for its
/// caller to do.
#[derive(Clone, Copy, Debug, PartialEq, Eq, Structural)]
pub enum KernelResolution {
    /// The timer fired. The caller runs the timer callback and then ends
    /// the interrupt.
    TimerTick,
    /// Devices ask for attention. The caller claims a line, runs its
    /// callbacks and only then completes it, one line after the other,
    /// until a claim finds none, and then ends the interrupt.
    External,
    /// The kernel touched a page of a user program that is not mapped. The
    /// caller hands the exception to the page-fault handler; where the
    /// handler fails, the system cannot go on.
    UserPageFault(CpuExceptionInfo),
    /// The kernel used the floating-point unit while it was off: the unit
    /// is switched on in the saved status.
    FpuInitialized,
}

/// Whether a page fault at `addr` is handed to the page-fault handler: a
/// handler is registered and the address belongs to user programs.
pub open spec fn delegated(handler_registered: bool, addr: usize) -> bool {
    handler_registered && addr < MAX_USERSPACE_VADDR
}

/// Whether the kernel can go on after `trap`: it is a timer or device
/// interrupt, an illegal instruction, or a page fault that the page-fault
/// handler takes. After any other trap, and after a page fault that no
/// handler takes, the system cannot go on.
pub open spec fn kernel_can_handle(trap: TrapRecord, handler_registered: bool) -> bool {
    match class_of(trap.cause) {
        TrapClass::Timer | TrapClass::External | TrapClass::IllegalInstruction => true,
        TrapClass::MemoryFault => delegated(handler_registered, trap.stval),
        _ => false,
    }
}

/// Tells whether the kernel can go on after `trap`.
pub fn can_handle(trap: &TrapRecord, handler_registered: bool) -> (r: bool)
    ensures
        r == kernel_can_handle(*trap, handler_registered),
{
    match classify(trap.cause) {
        TrapClass::Timer | TrapClass::External | TrapClass::IllegalInstruction => true,
        TrapClass::MemoryFault => handler_registered && (trap.stval as u64)
            < MAX_USERSPACE_VADDR,
        _ => false,
    }
}

/// Handle traps (only from kernel).
///
/// An interrupt marks the core as interrupted in kernel mode until
/// `end_kernel_interrupt`. A page fault at a user address goes to the
/// page-fault handler. An illegal instruction switches the floating-point
/// unit on in the saved status. The frame is not changed otherwise.
pub fn trap_handler(
    f: &mut TrapFrame,
    cpu: &mut Cpu,
    trap: &TrapRecord,
    handler_registered: bool,
) -> (r: KernelResolution)
    requires
        kernel_can_handle(*trap, handler_registered),
    ensures
        final(cpu).tlb == old(cpu).tlb,
        final(cpu).irq_enabled == old(cpu).irq_enabled,
        match class_of(trap.cause) {
            TrapClass::Timer => {
                &&& r == KernelResolution::TimerTick
                &&& final(cpu).kernel_interrupted
                &&& *final(f) == *old(f)
            },
            TrapClass::External => {
                &&& r == KernelResolution::External
                &&& final(cpu).kernel_interrupted
                &&& *final(f) == *old(f)
            },
            TrapClass::MemoryFault => {
                &&& r == KernelResolution::UserPageFault(info_of(*trap))
                &&& final(cpu).kernel_interrupted == old(cpu).kernel_interrupted
                &&& *final(f) == *old(f)
            },
            TrapClass::IllegalInstruction => {
                &&& r == KernelResolution::FpuInitialized
                &&& final(cpu).kernel_interrupted == old(cpu).kernel_interrupted
                &&& *final(f) == (TrapFrame { sstatus: with_fs_initial(old(f).sstatus), ..*old(f) })
            },
            _ => false,
        },
{
    match classify(trap.cause) {
        TrapClass::Timer => {
            cpu.kernel_interrupted = true;
            KernelResolution::TimerTick
        },
        TrapClass::External => {
            cpu.kernel_interrupted = true;
            KernelResolution::External
        },
        TrapClass::MemoryFault => {
            let code = match trap.cause {
                crate::arch::riscv::cpu::context::Trap::Exception(e) => e,
                _ => crate::arch::riscv::cpu::context::Exception::Unknown,
            };
            KernelResolution::UserPageFault(
                CpuExceptionInfo {
                    code,
                    page_fault_addr: trap.stval,
                    error_code: 0,
                    illegal_instruction: 0,
                },
            )
        },
        _ => {
            let old_sstatus: usize = f.sstatus;
            f.sstatus = (old_sstatus & !SSTATUS_FS_MASK) | SSTATUS_FS_INITIAL;
            KernelResolution::FpuInitialized
        },
    }
}

/// Ends the interrupt that `trap_handler` began: the core is no longer
/// marked as interrupted in kernel mode.
pub fn end_kernel_interrupt(cpu: &mut Cpu)
    ensures
        *final(cpu) == (Cpu { kernel_interrupted: false, ..*old(cpu) }),
{
    cpu.kernel_interrupted = false;
}

} // verus!
