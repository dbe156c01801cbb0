//! The execution context of a user program and the dispatcher of its traps.

use vstd::prelude::*;
use crate::arch::loongarch::kernel::irq_ctrl::IrqCtrl;
use crate::arch::loongarch::trap::{GeneralRegs, TrapFrame, UserContext as RawUserContext};
use crate::irq::{extend, lemma_protocol_push, protocol, IrqStep, Service};
use crate::mm::{page_base, slot_maps, tlb_flush_addr, Tlb};
use crate::user::ReturnReason;

verus! {

/// An exception that an instruction raised.
#[derive(Clone, Copy, Debug, PartialEq, Eq, Structural)]
pub enum Exception {
    /// A load found no valid translation.
    LoadPageFault,
    /// A store found no valid translation.
    StorePageFault,
    /// An instruction fetch found no valid translation.
    FetchPageFault,
    /// A store hit a page that is not marked dirty.
    PageModifyFault,
    /// A load hit a page that may not be read.
    PageNonReadableFault,
    /// An instruction fetch hit a page that may not be executed.
    PageNonExecutableFault,
    /// The privilege level may not use the page.
    PagePrivilegeIllegal,
    /// The address of an instruction fetch is illegal.
    FetchInstructionAddressError,
    /// The address of a load or store is illegal.
    MemoryAccessAddressError,
    /// The address of a load or store is not aligned.
    AddressNotAligned,
    /// A bounds check failed.
    BoundsCheckFault,
    /// A system call.
    Syscall,
    /// A breakpoint.
    Breakpoint,
    /// The instruction does not exist.
    InstructionNotExist,
    /// The privilege level may not use the instruction.
    InstructionPrivilegeIllegal,
    /// The floating-point unit is switched off.
    FloatingPointUnavailable,
    /// The translation cache must be refilled.
    TLBRFill,
}

/// An interrupt line of the core.
#[derive(Clone, Copy, Debug, PartialEq, Eq, Structural)]
pub enum Interrupt {
    SWI0,
    SWI1,
    HWI0,
    HWI1,
    HWI2,
    HWI3,
    HWI4,
    HWI5,
    HWI6,
    HWI7,
    /// The performance counters overflowed.
    PMI,
    /// The timer fired.
    Timer,
    /// Another core asks for attention.
    IPI,
}

/// An error that the machine found in itself.
#[derive(Clone, Copy, Debug, PartialEq, Eq, Structural)]
pub enum MachineError {
    CacheCheckError,
}

/// What stopped the program.
#[derive(Clone, Copy, Debug, PartialEq, Eq, Structural)]
pub enum Trap {
    Exception(Exception),
    Interrupt(Interrupt),
    MachineError(MachineError),
    Unknown,
}

/// CPU exception.
pub type CpuException = Exception;

/// The kinds of trap that the dispatcher tells apart.
#[derive(Clone, Copy, Debug, PartialEq, Eq, Structural)]
pub enum TrapClass {
    /// The program asks for a system call.
    Syscall,
    /// A memory access found no usable translation.
    MemoryFault,
    /// The program did something that it may not do.
    Fault,
    /// The program used the floating-point unit while it was switched off.
    FpuUnavailable,
    /// The timer fired.
    Timer,
    /// A device asks for attention.
    External,
    /// The machine cannot go on.
    Fatal,
}

/// The kind of trap that `cause` is.
pub open spec fn class_of(cause: Trap) -> TrapClass {
    match cause {
        Trap::Exception(e) => match e {
            Exception::Syscall => TrapClass::Syscall,
            Exception::LoadPageFault
            | Exception::StorePageFault
            | Exception::FetchPageFault
            | Exception::PageModifyFault
            | Exception::PageNonReadableFault
            | Exception::PageNonExecutableFault
            | Exception::PagePrivilegeIllegal => TrapClass::MemoryFault,
            Exception::FetchInstructionAddressError
            | Exception::MemoryAccessAddressError
            | Exception::AddressNotAligned
            | Exception::BoundsCheckFault
            | Exception::Breakpoint
            | Exception::InstructionNotExist
            | Exception::InstructionPrivilegeIllegal => TrapClass::Fault,
            Exception::FloatingPointUnavailable => TrapClass::FpuUnavailable,
            Exception::TLBRFill => TrapClass::Fatal,
        },
        Trap::Interrupt(i) => match i {
            Interrupt::Timer => TrapClass::Timer,
            Interrupt::HWI0
            | Interrupt::HWI1
            | Interrupt::HWI2
            | Interrupt::HWI3
            | Interrupt::HWI4
            | Interrupt::HWI5
            | Interrupt::HWI6
            | Interrupt::HWI7 => TrapClass::External,
            Interrupt::SWI0 | Interrupt::SWI1 | Interrupt::PMI | Interrupt::IPI => TrapClass::Fatal,
        },
        Trap::MachineError(_) => TrapClass::Fatal,
        Trap::Unknown => TrapClass::Fatal,
    }
}

/// Tells the kind of trap that `cause` is.
pub fn classify(cause: Trap) -> (r: TrapClass)
    ensures
        r == class_of(cause),
{
    match cause {
        Trap::Exception(e) => match e {
            Exception::Syscall => TrapClass::Syscall,
            Exception::LoadPageFault
            | Exception::StorePageFault
            | Exception::FetchPageFault
            | Exception::PageModifyFault
            | Exception::PageNonReadableFault
            | Exception::PageNonExecutableFault
            | Exception::PagePrivilegeIllegal => TrapClass::MemoryFault,
            Exception::FetchInstructionAddressError
            | Exception::MemoryAccessAddressError
            | Exception::AddressNotAligned
            | Exception::BoundsCheckFault
            | Exception::Breakpoint
            | Exception::InstructionNotExist
            | Exception::InstructionPrivilegeIllegal => TrapClass::Fault,
            Exception::FloatingPointUnavailable => TrapClass::FpuUnavailable,
            Exception::TLBRFill => TrapClass::Fatal,
        },
        Trap::Interrupt(i) => match i {
            Interrupt::Timer => TrapClass::Timer,
            Interrupt::HWI0
            | Interrupt::HWI1
            | Interrupt::HWI2
            | Interrupt::HWI3
            | Interrupt::HWI4
            | Interrupt::HWI5
            | Interrupt::HWI6
            | Interrupt::HWI7 => TrapClass::External,
            Interrupt::SWI0 | Interrupt::SWI1 | Interrupt::PMI | Interrupt::IPI => TrapClass::Fatal,
        },
        Trap::MachineError(_) => TrapClass::Fatal,
        Trap::Unknown => TrapClass::Fatal,
    }
}

/// CPU exception information.
#[derive(Clone, Copy, Debug, PartialEq, Eq, Structural)]
pub struct CpuExceptionInfo {
    /// The type of the exception.
    pub code: Exception,
    /// The page fault address.
    pub page_fault_addr: usize,
    /// The error code associated with the exception.
    pub error_code: usize,
}

impl Default for CpuExceptionInfo {
    fn default() -> (r: Self)
        ensures
            r == (CpuExceptionInfo {
                code: Exception::AddressNotAligned,
                page_fault_addr: 0,
                error_code: 0,
            }),
    {
        CpuExceptionInfo { code: Exception::AddressNotAligned, page_fault_addr: 0, error_code: 0 }
    }
}

impl CpuExceptionInfo {
    /// Get corresponding CPU exception
    pub fn cpu_exception(&self) -> (r: CpuException)
        ensures
            r == self.code,
    {
        self.code
    }
}

/// The FPU state of user task. This backend keeps no floating-point
/// registers yet, so there is nothing to save or restore.
#[derive(Clone, Copy, Debug, PartialEq, Eq, Structural)]
pub struct FpuState;

impl FpuState {
    /// Saves CPU's current FPU state into this instance.
    pub fn save(&self) {
    }

    /// Restores CPU's FPU state from this instance.
    pub fn restore(&self) {
    }
}

impl Default for FpuState {
    fn default() -> (r: Self)
        ensures
            r == FpuState,
    {
        FpuState
    }
}

/// Cpu context, including both general-purpose registers and FPU state.
#[derive(Clone, Copy, Debug, PartialEq, Eq, Structural)]
pub struct UserContext {
    pub user_context: RawUserContext,
    pub trap: Trap,
    pub fpu_state: FpuState,
    pub cpu_exception_info: CpuExceptionInfo,
}

impl Default for UserContext {
    fn default() -> (r: Self)
        ensures
            r.user_context.general == GeneralRegs::zeroed(),
            r.user_context.prmd == 0,
            r.user_context.era == 0,
            r.user_context.euen == 0,
            r.trap == Trap::Unknown,
            r.cpu_exception_info == (CpuExceptionInfo {
                code: Exception::AddressNotAligned,
                page_fault_addr: 0,
                error_code: 0,
            }),
    {
        UserContext {
            user_context: RawUserContext::default(),
            trap: Trap::Unknown,
            fpu_state: FpuState,
            cpu_exception_info: CpuExceptionInfo::default(),
        }
    }
}

/// The hardware of one core that the dispatcher touches.
#[derive(Debug)]
pub struct Cpu {
    /// The translation cache.
    pub tlb: Tlb,
    /// The interrupt controller.
    pub irq_ctrl: IrqCtrl,
    /// Whether the core takes interrupts.
    pub irq_enabled: bool,
}

impl Cpu {
    /// The interrupt controller is well-formed.
    pub open spec fn wf(self) -> bool {
        self.irq_ctrl.wf()
    }
}

/// What the hardware reports of one trap.
#[derive(Clone, Copy, Debug, PartialEq, Eq, Structural)]
pub struct TrapRecord {
    /// What stopped the program.
    pub cause: Trap,
    /// The address that a failed memory access went to.
    pub badv: usize,
    /// The instruction that raised the exception.
    pub badi: usize,
}

/// What the dispatcher did about one trap, and what is left for its caller
/// to do.
#[derive(Clone, Copy, Debug, PartialEq, Eq, Structural)]
pub enum Resolution {
    /// A system call: the saved program counter has moved past the
    /// instruction.
    Syscall,
    /// A memory fault: the translation of the address is gone from the
    /// cache and the exception is recorded.
    PageFault,
    /// Another fault: the exception is recorded. The caller reports it.
    Fault,
    /// The floating-point unit has been switched on.
    FpuEnabled,
    /// The timer fired. The caller runs the timer callback.
    TimerTick,
    /// Devices ask for attention. Nothing has been claimed yet: the caller
    /// claims a line, runs its callbacks and only then completes it, one
    /// line after the other, until a claim finds none.
    External,
}

/// The saved program counter moves by this much past a system call: the
/// width of one instruction.
pub const INSTRUCTION_WIDTH: usize = 4;

impl Resolution {
    /// The reason with which the dispatcher returns after this resolution,
    /// or `None` where the program may go on.
    pub open spec fn reason(self) -> Option<ReturnReason> {
        match self {
            Resolution::Syscall => Some(ReturnReason::UserSyscall),
            Resolution::PageFault | Resolution::Fault => Some(ReturnReason::UserException),
            _ => None,
        }
    }

    /// The reason with which the dispatcher returns after this resolution,
    /// or `None` where the program may go on.
    pub fn return_reason(&self) -> (r: Option<ReturnReason>)
        ensures
            r == self.reason(),
    {
        match self {
            Resolution::Syscall => Some(ReturnReason::UserSyscall),
            Resolution::PageFault | Resolution::Fault => Some(ReturnReason::UserException),
            _ => None,
        }
    }
}

/// The reason with which the run ends once a trap has been resolved as
/// `resolution` and the probe for kernel events has answered
/// `kernel_event`: the reason of the resolution where it has one, else a
/// kernel event where one is pending, else none, and the program goes on.
pub open spec fn outcome(resolution: Resolution, kernel_event: bool) -> Option<ReturnReason> {
    match resolution.reason() {
        Some(r) => Some(r),
        None => if kernel_event {
            Some(ReturnReason::KernelEvent)
        } else {
            None
        },
    }
}

/// Decides whether the run ends once a trap has been resolved, and with
/// which reason. The probe for kernel events is asked only after a
/// resolution that has no reason of its own; `kernel_event` is its answer.
/// Where the run ends, the core takes interrupts again; nothing else of
/// the core changes.
pub fn conclude(cpu: &mut Cpu, resolution: Resolution, kernel_event: bool) -> (r: Option<
    ReturnReason,
>)
    ensures
        r == outcome(resolution, kernel_event),
        final(cpu).irq_enabled == (r is Some || old(cpu).irq_enabled),
        final(cpu).tlb == old(cpu).tlb,
        final(cpu).irq_ctrl == old(cpu).irq_ctrl,
{
    let r = match resolution.return_reason() {
        Some(r) => Some(r),
        None => if kernel_event {
            Some(ReturnReason::KernelEvent)
        } else {
            None
        },
    };
    if r.is_some() {
        cpu.irq_enabled = true;
    }
    r
}

/// The reason with which the dispatcher returns after a trap of kind
/// `class`, or `None` where the program may go on.
pub open spec fn reason_of(class: TrapClass) -> Option<ReturnReason> {
    match class {
        TrapClass::Syscall => Some(ReturnReason::UserSyscall),
        TrapClass::MemoryFault | TrapClass::Fault => Some(ReturnReason::UserException),
        _ => None,
    }
}

impl UserContext {
    /// The context with `general` as its general-purpose registers.
    pub open spec fn with_general(self, general: GeneralRegs) -> Self {
        UserContext { user_context: RawUserContext { general, ..self.user_context }, ..self }
    }

    /// The context with `era` as its saved program counter.
    pub open spec fn with_era(self, era: usize) -> Self {
        UserContext { user_context: RawUserContext { era, ..self.user_context }, ..self }
    }

    /// The context after a system call trap: the saved program counter has
    /// moved by the width of one instruction.
    pub open spec fn after_syscall(self) -> Self {
        self.with_era((self.user_context.era + INSTRUCTION_WIDTH) as usize)
    }

    /// The context with `euen` as its unit enables.
    pub open spec fn with_euen(self, euen: usize) -> Self {
        UserContext { user_context: RawUserContext { euen, ..self.user_context }, ..self }
    }

    /// Returns a reference to the general registers.
    pub fn general_regs(&self) -> (r: &GeneralRegs)
        ensures
            *r == self.user_context.general,
    {
        &self.user_context.general
    }

    /// Returns a mutable reference to the general registers
    pub fn general_regs_mut(&mut self) -> (r: &mut GeneralRegs)
        ensures
            *r == old(self).user_context.general,
            *final(self) == old(self).with_general(*final(r)),
    {
        &mut self.user_context.general
    }

    /// Returns the trap information.
    pub fn trap_information(&self) -> (r: &CpuExceptionInfo)
        ensures
            *r == self.cpu_exception_info,
    {
        &self.cpu_exception_info
    }

    /// Returns a reference to the FPU state.
    pub fn fpu_state(&self) -> (r: &FpuState)
        ensures
            *r == self.fpu_state,
    {
        &self.fpu_state
    }

    /// Returns a mutable reference to the FPU state.
    pub fn fpu_state_mut(&mut self) -> (r: &mut FpuState)
        ensures
            *r == old(self).fpu_state,
            *final(self) == (UserContext { fpu_state: *final(r), ..*old(self) }),
    {
        &mut self.fpu_state
    }

    /// Sets thread-local storage pointer.
    pub fn set_tls_pointer(&mut self, tls: usize)
        ensures
            *final(self) == old(self).with_general(
                GeneralRegs { tp: tls, ..old(self).user_context.general },
            ),
    {
        self.set_tp(tls)
    }

    /// Gets thread-local storage pointer.
    pub fn tls_pointer(&self) -> (r: usize)
        ensures
            r == self.user_context.general.tp,
    {
        self.tp()
    }

    /// Activates thread-local storage pointer on the current CPU. The
    /// pointer lives in a general-purpose register, so there is nothing to do.
    pub fn activate_tls_pointer(&self) {
    }

    /// Enable floating-point unit
    pub fn enable_fpu(&mut self)
        ensures
            *final(self) == old(self).with_euen(1),
    {
        self.user_context.euen = 0x1;
    }

    /// The view of the context that interrupt callbacks get.
    pub fn as_trap_frame(&self) -> (r: TrapFrame)
        ensures
            r == (TrapFrame {
                general: self.user_context.general,
                prmd: self.user_context.prmd,
                era: self.user_context.era,
                euen: self.user_context.euen,
            }),
    {
        TrapFrame {
            general: self.user_context.general,
            prmd: self.user_context.prmd,
            era: self.user_context.era,
            euen: self.user_context.euen,
        }
    }

    /// The instruction pointer.
    pub fn instruction_pointer(&self) -> (r: usize)
        ensures
            r == self.user_context.era,
    {
        self.user_context.get_ip()
    }

    /// Sets the instruction pointer. Nothing else changes.
    pub fn set_instruction_pointer(&mut self, ip: usize)
        ensures
            *final(self) == old(self).with_era(ip),
    {
        self.user_context.set_ip(ip);
    }

    /// The stack pointer.
    pub fn stack_pointer(&self) -> (r: usize)
        ensures
            r == self.user_context.general.sp,
    {
        self.user_context.get_sp()
    }

    /// Sets the stack pointer. Nothing else changes.
    pub fn set_stack_pointer(&mut self, sp: usize)
        ensures
            *final(self) == old(self).with_general(
                GeneralRegs { sp: sp, ..old(self).user_context.general },
            ),
    {
        self.user_context.set_sp(sp);
    }

    /// Gets the value of ra.
    #[inline(always)]
    pub fn ra(&self) -> (r: usize)
        ensures
            r == self.user_context.general.ra,
    {
        self.user_context.general.ra
    }

    /// Sets the value of ra. Nothing else changes.
    #[inline(always)]
    pub fn set_ra(&mut self, ra: usize)
        ensures
            *final(self) == old(self).with_general(
                GeneralRegs { ra: ra, ..old(self).user_context.general },
            ),
    {
        self.user_context.general.ra = ra;
    }

    /// Gets the value of tp.
    #[inline(always)]
    pub fn tp(&self) -> (r: usize)
        ensures
            r == self.user_context.general.tp,
    {
        self.user_context.general.tp
    }

    /// Sets the value of tp. Nothing else changes.
    #[inline(always)]
    pub fn set_tp(&mut self, tp: usize)
        ensures
            *final(self) == old(self).with_general(
                GeneralRegs { tp: tp, ..old(self).user_context.general },
            ),
    {
        self.user_context.general.tp = tp;
    }

    /// Gets the value of sp.
    #[inline(always)]
    pub fn sp(&self) -> (r: usize)
        ensures
            r == self.user_context.general.sp,
    {
        self.user_context.general.sp
    }

    /// Sets the value of sp. Nothing else changes.
    #[inline(always)]
    pub fn set_sp(&mut self, sp: usize)
        ensures
            *final(self) == old(self).with_general(
                GeneralRegs { sp: sp, ..old(self).user_context.general },
            ),
    {
        self.user_context.general.sp = sp;
    }

    /// Gets the value of a0.
    #[inline(always)]
    pub fn a0(&self) -> (r: usize)
        ensures
            r == self.user_context.general.a0,
    {
        self.user_context.general.a0
    }

    /// Sets the value of a0. Nothing else changes.
    #[inline(always)]
    pub fn set_a0(&mut self, a0: usize)
        ensures
            *final(self) == old(self).with_general(
                GeneralRegs { a0: a0, ..old(self).user_context.general },
            ),
    {
        self.user_context.general.a0 = a0;
    }

    /// Gets the value of a1.
    #[inline(always)]
    pub fn a1(&self) -> (r: usize)
        ensures
            r == self.user_context.general.a1,
    {
        self.user_context.general.a1
    }

    /// Sets the value of a1. Nothing else changes.
    #[inline(always)]
    pub fn set_a1(&mut self, a1: usize)
        ensures
            *final(self) == old(self).with_general(
                GeneralRegs { a1: a1, ..old(self).user_context.general },
            ),
    {
        self.user_context.general.a1 = a1;
    }

    /// Gets the value of a2.
    #[inline(always)]
    pub fn a2(&self) -> (r: usize)
        ensures
            r == self.user_context.general.a2,
    {
        self.user_context.general.a2
    }

    /// Sets the value of a2. Nothing else changes.
    #[inline(always)]
    pub fn set_a2(&mut self, a2: usize)
        ensures
            *final(self) == old(self).with_general(
                GeneralRegs { a2: a2, ..old(self).user_context.general },
            ),
    {
        self.user_context.general.a2 = a2;
    }

    /// Gets the value of a3.
    #[inline(always)]
    pub fn a3(&self) -> (r: usize)
        ensures
            r == self.user_context.general.a3,
    {
        self.user_context.general.a3
    }

    /// Sets the value of a3. Nothing else changes.
    #[inline(always)]
    pub fn set_a3(&mut self, a3: usize)
        ensures
            *final(self) == old(self).with_general(
                GeneralRegs { a3: a3, ..old(self).user_context.general },
            ),
    {
        self.user_context.general.a3 = a3;
    }

    /// Gets the value of a4.
    #[inline(always)]
    pub fn a4(&self) -> (r: usize)
        ensures
            r == self.user_context.general.a4,
    {
        self.user_context.general.a4
    }

    /// Sets the value of a4. Nothing else changes.
    #[inline(always)]
    pub fn set_a4(&mut self, a4: usize)
        ensures
            *final(self) == old(self).with_general(
                GeneralRegs { a4: a4, ..old(self).user_context.general },
            ),
    {
        self.user_context.general.a4 = a4;
    }

    /// Gets the value of a5.
    #[inline(always)]
    pub fn a5(&self) -> (r: usize)
        ensures
            r == self.user_context.general.a5,
    {
        self.user_context.general.a5
    }

    /// Sets the value of a5. Nothing else changes.
    #[inline(always)]
    pub fn set_a5(&mut self, a5: usize)
        ensures
            *final(self) == old(self).with_general(
                GeneralRegs { a5: a5, ..old(self).user_context.general },
            ),
    {
        self.user_context.general.a5 = a5;
    }

    /// Gets the value of a6.
    #[inline(always)]
    pub fn a6(&self) -> (r: usize)
        ensures
            r == self.user_context.general.a6,
    {
        self.user_context.general.a6
    }

    /// Sets the value of a6. Nothing else changes.
    #[inline(always)]
    pub fn set_a6(&mut self, a6: usize)
        ensures
            *final(self) == old(self).with_general(
                GeneralRegs { a6: a6, ..old(self).user_context.general },
            ),
    {
        self.user_context.general.a6 = a6;
    }

    /// Gets the value of a7.
    #[inline(always)]
    pub fn a7(&self) -> (r: usize)
        ensures
            r == self.user_context.general.a7,
    {
        self.user_context.general.a7
    }

    /// Sets the value of a7. Nothing else changes.
    #[inline(always)]
    pub fn set_a7(&mut self, a7: usize)
        ensures
            *final(self) == old(self).with_general(
                GeneralRegs { a7: a7, ..old(self).user_context.general },
            ),
    {
        self.user_context.general.a7 = a7;
    }

    /// Gets the value of t0.
    #[inline(always)]
    pub fn t0(&self) -> (r: usize)
        ensures
            r == self.user_context.general.t0,
    {
        self.user_context.general.t0
    }

    /// Sets the value of t0. Nothing else changes.
    #[inline(always)]
    pub fn set_t0(&mut self, t0: usize)
        ensures
            *final(self) == old(self).with_general(
                GeneralRegs { t0: t0, ..old(self).user_context.general },
            ),
    {
        self.user_context.general.t0 = t0;
    }

    /// Gets the value of t1.
    #[inline(always)]
    pub fn t1(&self) -> (r: usize)
        ensures
            r == self.user_context.general.t1,
    {
        self.user_context.general.t1
    }

    /// Sets the value of t1. Nothing else changes.
    #[inline(always)]
    pub fn set_t1(&mut self, t1: usize)
        ensures
            *final(self) == old(self).with_general(
                GeneralRegs { t1: t1, ..old(self).user_context.general },
            ),
    {
        self.user_context.general.t1 = t1;
    }

    /// Gets the value of t2.
    #[inline(always)]
    pub fn t2(&self) -> (r: usize)
        ensures
            r == self.user_context.general.t2,
    {
        self.user_context.general.t2
    }

    /// Sets the value of t2. Nothing else changes.
    #[inline(always)]
    pub fn set_t2(&mut self, t2: usize)
        ensures
            *final(self) == old(self).with_general(
                GeneralRegs { t2: t2, ..old(self).user_context.general },
            ),
    {
        self.user_context.general.t2 = t2;
    }

    /// Gets the value of t3.
    #[inline(always)]
    pub fn t3(&self) -> (r: usize)
        ensures
            r == self.user_context.general.t3,
    {
        self.user_context.general.t3
    }

    /// Sets the value of t3. Nothing else changes.
    #[inline(always)]
    pub fn set_t3(&mut self, t3: usize)
        ensures
            *final(self) == old(self).with_general(
                GeneralRegs { t3: t3, ..old(self).user_context.general },
            ),
    {
        self.user_context.general.t3 = t3;
    }

    /// Gets the value of t4.
    #[inline(always)]
    pub fn t4(&self) -> (r: usize)
        ensures
            r == self.user_context.general.t4,
    {
        self.user_context.general.t4
    }

    /// Sets the value of t4. Nothing else changes.
    #[inline(always)]
    pub fn set_t4(&mut self, t4: usize)
        ensures
            *final(self) == old(self).with_general(
                GeneralRegs { t4: t4, ..old(self).user_context.general },
            ),
    {
        self.user_context.general.t4 = t4;
    }

    /// Gets the value of t5.
    #[inline(always)]
    pub fn t5(&self) -> (r: usize)
        ensures
            r == self.user_context.general.t5,
    {
        self.user_context.general.t5
    }

    /// Sets the value of t5. Nothing else changes.
    #[inline(always)]
    pub fn set_t5(&mut self, t5: usize)
        ensures
            *final(self) == old(self).with_general(
                GeneralRegs { t5: t5, ..old(self).user_context.general },
            ),
    {
        self.user_context.general.t5 = t5;
    }

    /// Gets the value of t6.
    #[inline(always)]
    pub fn t6(&self) -> (r: usize)
        ensures
            r == self.user_context.general.t6,
    {
        self.user_context.general.t6
    }

    /// Sets the value of t6. Nothing else changes.
    #[inline(always)]
    pub fn set_t6(&mut self, t6: usize)
        ensures
            *final(self) == old(self).with_general(
                GeneralRegs { t6: t6, ..old(self).user_context.general },
            ),
    {
        self.user_context.general.t6 = t6;
    }

    /// Gets the value of t7.
    #[inline(always)]
    pub fn t7(&self) -> (r: usize)
        ensures
            r == self.user_context.general.t7,
    {
        self.user_context.general.t7
    }

    /// Sets the value of t7. Nothing else changes.
    #[inline(always)]
    pub fn set_t7(&mut self, t7: usize)
        ensures
            *final(self) == old(self).with_general(
                GeneralRegs { t7: t7, ..old(self).user_context.general },
            ),
    {
        self.user_context.general.t7 = t7;
    }

    /// Gets the value of t8.
    #[inline(always)]
    pub fn t8(&self) -> (r: usize)
        ensures
            r == self.user_context.general.t8,
    {
        self.user_context.general.t8
    }

    /// Sets the value of t8. Nothing else changes.
    #[inline(always)]
    pub fn set_t8(&mut self, t8: usize)
        ensures
            *final(self) == old(self).with_general(
                GeneralRegs { t8: t8, ..old(self).user_context.general },
            ),
    {
        self.user_context.general.t8 = t8;
    }

    /// Gets the value of r21.
    #[inline(always)]
    pub fn r21(&self) -> (r: usize)
        ensures
            r == self.user_context.general.u0,
    {
        self.user_context.general.u0
    }

    /// Sets the value of r21. Nothing else changes.
    #[inline(always)]
    pub fn set_r21(&mut self, r21: usize)
        ensures
            *final(self) == old(self).with_general(
                GeneralRegs { u0: r21, ..old(self).user_context.general },
            ),
    {
        self.user_context.general.u0 = r21;
    }

    /// Gets the value of fp.
    #[inline(always)]
    pub fn fp(&self) -> (r: usize)
        ensures
            r == self.user_context.general.fp,
    {
        self.user_context.general.fp
    }

    /// Sets the value of fp. Nothing else changes.
    #[inline(always)]
    pub fn set_fp(&mut self, fp: usize)
        ensures
            *final(self) == old(self).with_general(
                GeneralRegs { fp: fp, ..old(self).user_context.general },
            ),
    {
        self.user_context.general.fp = fp;
    }

    /// Gets the value of s0.
    #[inline(always)]
    pub fn s0(&self) -> (r: usize)
        ensures
            r == self.user_context.general.s0,
    {
        self.user_context.general.s0
    }

    /// Sets the value of s0. Nothing else changes.
    #[inline(always)]
    pub fn set_s0(&mut self, s0: usize)
        ensures
            *final(self) == old(self).with_general(
                GeneralRegs { s0: s0, ..old(self).user_context.general },
            ),
    {
        self.user_context.general.s0 = s0;
    }

    /// Gets the value of s1.
    #[inline(always)]
    pub fn s1(&self) -> (r: usize)
        ensures
            r == self.user_context.general.s1,
    {
        self.user_context.general.s1
    }

    /// Sets the value of s1. Nothing else changes.
    #[inline(always)]
    pub fn set_s1(&mut self, s1: usize)
        ensures
            *final(self) == old(self).with_general(
                GeneralRegs { s1: s1, ..old(self).user_context.general },
            ),
    {
        self.user_context.general.s1 = s1;
    }

    /// Gets the value of s2.
    #[inline(always)]
    pub fn s2(&self) -> (r: usize)
        ensures
            r == self.user_context.general.s2,
    {
        self.user_context.general.s2
    }

    /// Sets the value of s2. Nothing else changes.
    #[inline(always)]
    pub fn set_s2(&mut self, s2: usize)
        ensures
            *final(self) == old(self).with_general(
                GeneralRegs { s2: s2, ..old(self).user_context.general },
            ),
    {
        self.user_context.general.s2 = s2;
    }

    /// Gets the value of s3.
    #[inline(always)]
    pub fn s3(&self) -> (r: usize)
        ensures
            r == self.user_context.general.s3,
    {
        self.user_context.general.s3
    }

    /// Sets the value of s3. Nothing else changes.
    #[inline(always)]
    pub fn set_s3(&mut self, s3: usize)
        ensures
            *final(self) == old(self).with_general(
                GeneralRegs { s3: s3, ..old(self).user_context.general },
            ),
    {
        self.user_context.general.s3 = s3;
    }

    /// Gets the value of s4.
    #[inline(always)]
    pub fn s4(&self) -> (r: usize)
        ensures
            r == self.user_context.general.s4,
    {
        self.user_context.general.s4
    }

    /// Sets the value of s4. Nothing else changes.
    #[inline(always)]
    pub fn set_s4(&mut self, s4: usize)
        ensures
            *final(self) == old(self).with_general(
                GeneralRegs { s4: s4, ..old(self).user_context.general },
            ),
    {
        self.user_context.general.s4 = s4;
    }

    /// Gets the value of s5.
    #[inline(always)]
    pub fn s5(&self) -> (r: usize)
        ensures
            r == self.user_context.general.s5,
    {
        self.user_context.general.s5
    }

    /// Sets the value of s5. Nothing else changes.
    #[inline(always)]
    pub fn set_s5(&mut self, s5: usize)
        ensures
            *final(self) == old(self).with_general(
                GeneralRegs { s5: s5, ..old(self).user_context.general },
            ),
    {
        self.user_context.general.s5 = s5;
    }

    /// Gets the value of s6.
    #[inline(always)]
    pub fn s6(&self) -> (r: usize)
        ensures
            r == self.user_context.general.s6,
    {
        self.user_context.general.s6
    }

    /// Sets the value of s6. Nothing else changes.
    #[inline(always)]
    pub fn set_s6(&mut self, s6: usize)
        ensures
            *final(self) == old(self).with_general(
                GeneralRegs { s6: s6, ..old(self).user_context.general },
            ),
    {
        self.user_context.general.s6 = s6;
    }

    /// Gets the value of s7.
    #[inline(always)]
    pub fn s7(&self) -> (r: usize)
        ensures
            r == self.user_context.general.s7,
    {
        self.user_context.general.s7
    }

    /// Sets the value of s7. Nothing else changes.
    #[inline(always)]
    pub fn set_s7(&mut self, s7: usize)
        ensures
            *final(self) == old(self).with_general(
                GeneralRegs { s7: s7, ..old(self).user_context.general },
            ),
    {
        self.user_context.general.s7 = s7;
    }

    /// Gets the value of s8.
    #[inline(always)]
    pub fn s8(&self) -> (r: usize)
        ensures
            r == self.user_context.general.s8,
    {
        self.user_context.general.s8
    }

    /// Sets the value of s8. Nothing else changes.
    #[inline(always)]
    pub fn set_s8(&mut self, s8: usize)
        ensures
            *final(self) == old(self).with_general(
                GeneralRegs { s8: s8, ..old(self).user_context.general },
            ),
    {
        self.user_context.general.s8 = s8;
    }

}

/// Serves every line that is pending and enabled, highest line first,
/// until a claim finds none: each line is claimed, handed out for its
/// callbacks, and completed only after that. Returns the lines in the
/// order in which they were claimed, and the steps in the order in which
/// they were taken.
#[verifier::rlimit(40)]
pub fn service_pending(ctrl: &mut IrqCtrl) -> (served: Service)
    requires
        old(ctrl).wf(),
    ensures
        served.steps@ == protocol(served.lines@),
        final(ctrl).wf(),
        final(ctrl).platic == old(ctrl).platic,
        final(ctrl).eiointc.enable == old(ctrl).eiointc.enable,
        forall|m: int| !final(ctrl).eiointc.deliverable(m),
        forall|m: int| #[trigger]
            final(ctrl).eiointc.pending(m) == (old(ctrl).eiointc.pending(m)
                && !old(ctrl).eiointc.enabled(m)),
        forall|i: int|
            0 <= i < served.lines@.len() ==> served.lines@[i] < 256 && old(ctrl).eiointc.deliverable(
                #[trigger] served.lines@[i] as int,
            ),
        forall|m: int|
            old(ctrl).eiointc.deliverable(m) ==> exists|i: int|
                0 <= i < served.lines@.len() && #[trigger] served.lines@[i] == m,
        forall|i: int, j: int| 0 <= i < j < served.lines@.len() ==> served.lines@[i] > served.lines@[j],
{
    let mut lines: Vec<usize> = Vec::new();
    let mut steps: Vec<IrqStep> = Vec::new();
    let ghost mut bound: int = 256;
    assert(steps@ =~= protocol(lines@));
    let mut next = ctrl.claim_irq();
    while next.is_some()
        invariant
            steps@ == protocol(lines@),
            ctrl.wf(),
            ctrl.platic == old(ctrl).platic,
            ctrl.eiointc.enable == old(ctrl).eiointc.enable,
            0 <= bound <= 256,
            forall|m: int| #[trigger] ctrl.eiointc.enabled(m) == old(ctrl).eiointc.enabled(m),
            forall|m: int| #[trigger]
                ctrl.eiointc.pending(m) == (old(ctrl).eiointc.pending(m)
                    && !(old(ctrl).eiointc.enabled(m) && m >= bound)),
            forall|i: int|
                0 <= i < lines@.len() ==> bound <= lines@[i] < 256
                    && old(ctrl).eiointc.deliverable(#[trigger] lines@[i] as int),
            forall|m: int|
                old(ctrl).eiointc.deliverable(m) && m >= bound ==> exists|i: int|
                    0 <= i < lines@.len() && #[trigger] lines@[i] == m,
            forall|i: int, j: int| 0 <= i < j < lines@.len() ==> lines@[i] > lines@[j],
            match next {
                Some(no) => no < 256 && ctrl.eiointc.deliverable(no as int) && forall|m: int|
                    ctrl.eiointc.deliverable(m) ==> m <= no,
                None => forall|m: int| !ctrl.eiointc.deliverable(m),
            },
        decreases bound,
    {
        let no: usize = next.unwrap();
        let ghost before = *ctrl;
        let ghost seen = lines@;
        assert(no < bound) by {
            assert(before.eiointc.pending(no as int));
        }
        proof {
            lemma_protocol_push(lines@, no);
        }
        steps.push(IrqStep::Dispatch(no));
        ctrl.complete_irq(no);
        steps.push(IrqStep::Complete(no));
        lines.push(no);
        proof {
            assert forall|m: int| #[trigger]
                ctrl.eiointc.pending(m) == (old(ctrl).eiointc.pending(m)
                    && !(old(ctrl).eiointc.enabled(m) && m >= no)) by {
                assert(before.eiointc.pending(m) == (old(ctrl).eiointc.pending(m)
                    && !(old(ctrl).eiointc.enabled(m) && m >= bound)));
                assert(before.eiointc.enabled(m) == old(ctrl).eiointc.enabled(m));
                if no < m < bound && old(ctrl).eiointc.pending(m) && old(ctrl).eiointc.enabled(m) {
                    assert(before.eiointc.deliverable(m));
                }
            }
            assert forall|m: int| old(ctrl).eiointc.deliverable(m) && m >= no implies exists|
                i: int,
            |
                0 <= i < lines@.len() && #[trigger] lines@[i] == m by {
                if m >= bound {
                    let i = choose|i: int| 0 <= i < seen.len() && #[trigger] seen[i] == m;
                    assert(lines@[i] == m);
                } else if m == no {
                    assert(lines@[seen.len() as int] == m);
                } else {
                    assert(before.eiointc.pending(m) == (old(ctrl).eiointc.pending(m)
                        && !(old(ctrl).eiointc.enabled(m) && m >= bound)));
                    assert(before.eiointc.enabled(m) == old(ctrl).eiointc.enabled(m));
                    assert(before.eiointc.deliverable(m));
                }
            }
            assert forall|i: int| 0 <= i < lines@.len() implies no <= lines@[i] < 256
                && old(ctrl).eiointc.deliverable(#[trigger] lines@[i] as int) by {
                if i < seen.len() {
                    assert(lines@[i] == seen[i]);
                } else {
                    assert(before.eiointc.pending(no as int) == (old(ctrl).eiointc.pending(
                        no as int,
                    ) && !(old(ctrl).eiointc.enabled(no as int) && no >= bound)));
                    assert(before.eiointc.enabled(no as int) == old(ctrl).eiointc.enabled(
                        no as int,
                    ));
                }
            }
            bound = no as int;
        }
        next = ctrl.claim_irq();
    }
    proof {
        assert forall|m: int| #[trigger]
            ctrl.eiointc.pending(m) == (old(ctrl).eiointc.pending(m)
                && !old(ctrl).eiointc.enabled(m)) by {
            assert(ctrl.eiointc.pending(m) == (old(ctrl).eiointc.pending(m)
                && !(old(ctrl).eiointc.enabled(m) && m >= bound)));
            assert(ctrl.eiointc.enabled(m) == old(ctrl).eiointc.enabled(m));
            assert(!ctrl.eiointc.deliverable(m));
        }
        assert forall|m: int| old(ctrl).eiointc.deliverable(m) implies exists|i: int|
            0 <= i < lines@.len() && #[trigger] lines@[i] == m by {
            assert(ctrl.eiointc.pending(m) == (old(ctrl).eiointc.pending(m)
                && !(old(ctrl).eiointc.enabled(m) && m >= bound)));
            assert(ctrl.eiointc.enabled(m) == old(ctrl).eiointc.enabled(m));
            assert(!ctrl.eiointc.deliverable(m));
        }
    }
    let ghost all = lines@;
    let served = Service { lines, steps };
    proof {
        assert(served.lines@ == all);
        assert forall|m: int| old(ctrl).eiointc.deliverable(m) implies exists|i: int|
            0 <= i < served.lines@.len() && #[trigger] served.lines@[i] == m by {
            let i = choose|i: int| 0 <= i < all.len() && #[trigger] all[i] == m;
            assert(served.lines@[i] == m);
        }
    }
    served
}

impl UserContext {
    /// Resolves one trap that stopped the program.
    ///
    /// A system call moves the saved program counter past the instruction.
    /// A memory fault drops the translation of the faulting address from
    /// the cache and records the exception with that address. Another
    /// fault records the exception. A use of the switched-off
    /// floating-point unit switches the unit on and records nothing. A
    /// timer interrupt or a device interrupt changes nothing: the timer
    /// callback and the serving of the lines are left to the caller. What
    /// a case does not name stays as it was.
    #[verifier::rlimit(40)]
    pub fn handle_trap(&mut self, cpu: &mut Cpu, trap: &TrapRecord) -> (r: Resolution)
        requires
            old(cpu).wf(),
            class_of(trap.cause) != TrapClass::Fatal,
            class_of(trap.cause) == TrapClass::Syscall ==> old(self).user_context.era
                + INSTRUCTION_WIDTH <= usize::MAX,
        ensures
            final(cpu).wf(),
            final(cpu).irq_enabled == old(cpu).irq_enabled,
            r.reason() == reason_of(class_of(trap.cause)),
            match class_of(trap.cause) {
                TrapClass::Syscall => {
                    &&& r == Resolution::Syscall
                    &&& *final(self) == old(self).after_syscall()
                    &&& *final(cpu) == *old(cpu)
                },
                TrapClass::MemoryFault => {
                    &&& r == Resolution::PageFault
                    &&& *final(self) == (UserContext {
                        cpu_exception_info: CpuExceptionInfo {
                            code: trap.cause->Exception_0,
                            page_fault_addr: trap.badv,
                            error_code: 0,
                        },
                        ..*old(self)
                    })
                    &&& final(cpu).irq_ctrl == old(cpu).irq_ctrl
                    &&& final(cpu).tlb.slots@.len() == old(cpu).tlb.slots@.len()
                    &&& forall|i: int|
                        0 <= i < old(cpu).tlb.slots@.len() ==> #[trigger] final(cpu).tlb.slots@[i]
                            == (if slot_maps(old(cpu).tlb.slots@[i], page_base(trap.badv as int)) {
                            None
                        } else {
                            old(cpu).tlb.slots@[i]
                        })
                    &&& !final(cpu).tlb.caches(trap.badv as int)
                },
                TrapClass::Fault => {
                    &&& r == Resolution::Fault
                    &&& *final(self) == (UserContext {
                        cpu_exception_info: CpuExceptionInfo {
                            code: trap.cause->Exception_0,
                            page_fault_addr: 0,
                            error_code: 0,
                        },
                        ..*old(self)
                    })
                    &&& *final(cpu) == *old(cpu)
                },
                TrapClass::FpuUnavailable => {
                    &&& r == Resolution::FpuEnabled
                    &&& *final(self) == old(self).with_euen(1)
                    &&& *final(cpu) == *old(cpu)
                },
                TrapClass::Timer => {
                    &&& r == Resolution::TimerTick
                    &&& *final(self) == *old(self)
                    &&& *final(cpu) == *old(cpu)
                },
                TrapClass::External => {
                    &&& r == Resolution::External
                    &&& *final(self) == *old(self)
                    &&& *final(cpu) == *old(cpu)
                },
                TrapClass::Fatal => false,
            },
    {
        match classify(trap.cause) {
            TrapClass::Syscall => {
                self.user_context.era += INSTRUCTION_WIDTH;
                Resolution::Syscall
            },
            TrapClass::MemoryFault => {
                let code = match trap.cause {
                    Trap::Exception(e) => e,
                    _ => Exception::LoadPageFault,
                };
                tlb_flush_addr(&mut cpu.tlb, trap.badv);
                self.cpu_exception_info = CpuExceptionInfo {
                    code,
                    page_fault_addr: trap.badv,
                    error_code: 0,
                };
                Resolution::PageFault
            },
            TrapClass::Fault => {
                let code = match trap.cause {
                    Trap::Exception(e) => e,
                    _ => Exception::AddressNotAligned,
                };
                self.cpu_exception_info = CpuExceptionInfo {
                    code,
                    page_fault_addr: 0,
                    error_code: 0,
                };
                Resolution::Fault
            },
            TrapClass::FpuUnavailable => {
                self.enable_fpu();
                Resolution::FpuEnabled
            },
            TrapClass::Timer => Resolution::TimerTick,
            TrapClass::External => Resolution::External,
            TrapClass::Fatal => Resolution::Fault,
        }
    }
}

/// What serving the device interrupts does to the controller: `lines` are
/// the lines that were pending and enabled, highest first, each once; they
/// are no longer pending, and nothing else has changed.
pub open spec fn serviced(before: IrqCtrl, after: IrqCtrl, lines: Seq<usize>) -> bool {
    &&& after.wf()
    &&& after.platic == before.platic
    &&& after.eiointc.enable == before.eiointc.enable
    &&& forall|m: int| !after.eiointc.deliverable(m)
    &&& forall|m: int| #[trigger]
        after.eiointc.pending(m) == (before.eiointc.pending(m) && !before.eiointc.enabled(m))
    &&& forall|i: int|
        0 <= i < lines.len() ==> lines[i] < 256 && before.eiointc.deliverable(
            #[trigger] lines[i] as int,
        )
    &&& forall|m: int|
        before.eiointc.deliverable(m) ==> exists|i: int|
            0 <= i < lines.len() && #[trigger] lines[i] == m
    &&& forall|i: int, j: int| 0 <= i < j < lines.len() ==> lines[i] > lines[j]
}

/// One trap of a run, and what the probe for kernel events answers once
/// the trap is resolved.
#[derive(Clone, Copy, Debug, PartialEq, Eq, Structural)]
pub struct TrapEvent {
    /// What the hardware reports of the trap.
    pub trap: TrapRecord,
    /// Whether a kernel event is pending after the trap.
    pub kernel_event: bool,
}

/// How a run of the dispatcher ended.
#[derive(Debug)]
pub struct Execution {
    /// Why the dispatcher returned, or `None` where the traps handed in
    /// were all resolved and the program is running on.
    pub reason: Option<ReturnReason>,
    /// How many traps were taken: the number of turns of the loop.
    pub traps: usize,
    /// How often the timer callback is to be run.
    pub timer_ticks: usize,
    /// The device lines whose callbacks are to be run, in order.
    pub dispatched: Vec<usize>,
    /// The steps in which the device lines are served, in order: each line
    /// is dispatched, then completed.
    pub irq_steps: Vec<IrqStep>,
}

/// Whether a run takes trap `j` of `events`: no trap before it ends the run.
pub open spec fn reached(events: Seq<TrapEvent>, j: int) -> bool {
    forall|i: int| 0 <= i < j ==> !stops(#[trigger] events[i])
}

/// Whether the dispatcher returns after `event`: the trap itself ends the
/// run, or it is resolved and a kernel event is pending.
pub open spec fn stops(event: TrapEvent) -> bool {
    reason_of(class_of(event.trap.cause)) is Some || event.kernel_event
}

/// The reason with which the dispatcher returns after `event`, where it
/// returns.
pub open spec fn reason_at(event: TrapEvent) -> ReturnReason {
    match reason_of(class_of(event.trap.cause)) {
        Some(r) => r,
        None => ReturnReason::KernelEvent,
    }
}

/// The exception that is recorded for `trap`.
pub open spec fn info_of(trap: TrapRecord) -> CpuExceptionInfo {
    CpuExceptionInfo {
        code: trap.cause->Exception_0,
        page_fault_addr: if class_of(trap.cause) == TrapClass::MemoryFault {
            trap.badv
        } else {
            0
        },
        error_code: 0,
    }
}

/// How many of the first `n` events are timer interrupts.
pub open spec fn timer_ticks_in(events: Seq<TrapEvent>, n: int) -> int
    decreases n,
{
    if n <= 0 {
        0
    } else {
        timer_ticks_in(events, n - 1) + (if class_of(events[n - 1].trap.cause) == TrapClass::Timer {
            1int
        } else {
            0int
        })
    }
}

/// Whether one of the first `n` events is of kind `class`.
pub open spec fn seen(events: Seq<TrapEvent>, n: int, class: TrapClass) -> bool {
    exists|j: int| 0 <= j < n && class_of(#[trigger] events[j].trap.cause) == class
}

/// What a run over the first `handled` events does: the state `after`
/// with `cpu_after` that it leaves of `before` with `cpu_before`, the
/// reason with which it returns, and what it leaves for its caller.
pub open spec fn ran(
    before: UserContext,
    cpu_before: Cpu,
    events: Seq<TrapEvent>,
    handled: int,
    after: UserContext,
    cpu_after: Cpu,
    reason: Option<ReturnReason>,
    timer_ticks: int,
    lines: Seq<usize>,
    steps: Seq<IrqStep>,
) -> bool {
    &&& 0 <= handled <= events.len()
    &&& steps == protocol(lines)
    &&& forall|j: int| 0 <= j < handled - 1 ==> !stops(#[trigger] events[j])
    &&& match reason {
        Some(r) => handled > 0 && stops(events[handled - 1]) && r == reason_at(events[handled - 1]),
        None => handled > 0 ==> !stops(events[handled - 1]),
    }
    &&& after.user_context.general == before.user_context.general
    &&& after.user_context.prmd == before.user_context.prmd
    &&& after.fpu_state == before.fpu_state
    &&& after.trap == before.trap
    &&& after.user_context.era == (if reason == Some(ReturnReason::UserSyscall) {
        (before.user_context.era + INSTRUCTION_WIDTH) as usize
    } else {
        before.user_context.era
    })
    &&& after.user_context.euen == (if seen(events, handled, TrapClass::FpuUnavailable) {
        1usize
    } else {
        before.user_context.euen
    })
    &&& after.cpu_exception_info == (if reason == Some(ReturnReason::UserException) {
        info_of(events[handled - 1].trap)
    } else {
        before.cpu_exception_info
    })
    &&& cpu_after.tlb.slots@.len() == cpu_before.tlb.slots@.len()
    &&& forall|i: int|
        0 <= i < cpu_before.tlb.slots@.len() ==> #[trigger] cpu_after.tlb.slots@[i] == (if handled
            > 0 && class_of(events[handled - 1].trap.cause) == TrapClass::MemoryFault && slot_maps(
            cpu_before.tlb.slots@[i],
            page_base(events[handled - 1].trap.badv as int),
        ) {
            None
        } else {
            cpu_before.tlb.slots@[i]
        })
    &&& timer_ticks == timer_ticks_in(events, handled)
    &&& if seen(events, handled, TrapClass::External) {
        serviced(cpu_before.irq_ctrl, cpu_after.irq_ctrl, lines)
    } else {
        cpu_after.irq_ctrl == cpu_before.irq_ctrl && lines.len() == 0
    }
}

/// Serving the device interrupts a second time finds nothing to serve and
/// changes nothing.
proof fn lemma_serviced_again(
    before: IrqCtrl,
    mid: IrqCtrl,
    after: IrqCtrl,
    lines: Seq<usize>,
    more: Seq<usize>,
)
    requires
        serviced(before, mid, lines),
        serviced(mid, after, more),
    ensures
        more.len() == 0,
        serviced(before, after, lines + more),
{
    if more.len() > 0 {
        assert(mid.eiointc.deliverable(more[0] as int));
    }
    assert(lines + more == lines);
    assert forall|m: int| #[trigger]
        after.eiointc.pending(m) == (before.eiointc.pending(m) && !before.eiointc.enabled(m)) by {
        assert(mid.eiointc.pending(m) == (before.eiointc.pending(m) && !before.eiointc.enabled(
            m,
        )));
        assert(mid.eiointc.enabled(m) == before.eiointc.enabled(m));
    }
}

impl UserContext {
    /// Runs the dispatcher over the traps of `events`, in order, as the
    /// hardware would raise them: each trap is resolved, and the run ends
    /// with the first trap that ends it by itself (a system call or a
    /// fault) or after which a kernel event is pending. On return the core
    /// takes interrupts again. Where no trap of `events` ends the run, all
    /// are resolved and the result holds no reason. Traps behind the one
    /// that ends the run are not taken.
    ///
    /// A device interrupt is served before the probe for kernel events is
    /// asked: each line is dispatched and then completed, one line after
    /// the other, as the steps of the result tell.
    ///
    /// A use of the switched-off floating-point unit never ends the run by
    /// itself: the unit is switched on and the run goes on.
    #[verifier::rlimit(40)]
    pub fn execute(&mut self, cpu: &mut Cpu, events: &Vec<TrapEvent>) -> (out: Execution)
        requires
            old(cpu).wf(),
            forall|j: int|
                0 <= j < events@.len() && reached(events@, j) ==> class_of(
                    #[trigger] events@[j].trap.cause,
                ) != TrapClass::Fatal,
            forall|j: int|
                0 <= j < events@.len() && reached(events@, j) && class_of(
                    #[trigger] events@[j].trap.cause,
                ) == TrapClass::Syscall ==> old(self).user_context.era + INSTRUCTION_WIDTH
                    <= usize::MAX,
        ensures
            final(cpu).wf(),
            ran(
                *old(self),
                *old(cpu),
                events@,
                out.traps as int,
                *final(self),
                *final(cpu),
                out.reason,
                out.timer_ticks as int,
                out.dispatched@,
                out.irq_steps@,
            ),
            out.reason is None ==> out.traps == events@.len(),
            final(cpu).irq_enabled == (out.reason is Some || old(cpu).irq_enabled),
    {
        let mut reason: Option<ReturnReason> = None;
        let mut i: usize = 0;
        let mut timer_ticks: usize = 0;
        let mut dispatched: Vec<usize> = Vec::new();
        let mut irq_steps: Vec<IrqStep> = Vec::new();
        assert(irq_steps@ =~= protocol(dispatched@));
        while i < events.len() && reason.is_none()
            invariant
                cpu.wf(),
                cpu.irq_enabled == (reason is Some || old(cpu).irq_enabled),
                timer_ticks <= i <= events@.len(),
                forall|j: int|
                    0 <= j < events@.len() && reached(events@, j) ==> class_of(
                        #[trigger] events@[j].trap.cause,
                    ) != TrapClass::Fatal,
                forall|j: int|
                    0 <= j < events@.len() && reached(events@, j) && class_of(
                        #[trigger] events@[j].trap.cause,
                    ) == TrapClass::Syscall ==> old(self).user_context.era + INSTRUCTION_WIDTH
                        <= usize::MAX,
                reason is None ==> reached(events@, i as int),
                ran(
                    *old(self),
                    *old(cpu),
                    events@,
                    i as int,
                    *self,
                    *cpu,
                    reason,
                    timer_ticks as int,
                    dispatched@,
                    irq_steps@,
                ),
            decreases events@.len() - i + (if reason is None { 1int } else { 0int }),
        {
            let event: TrapEvent = events[i];
            let ghost cpu_mid = *cpu;
            let ghost lines_mid = dispatched@;
            let ghost steps_mid = irq_steps@;
            assert(events@[i as int] == event);
            let resolution = self.handle_trap(cpu, &event.trap);
            match resolution {
                Resolution::TimerTick => {
                    timer_ticks += 1;
                },
                Resolution::External => {
                    let served = service_pending(&mut cpu.irq_ctrl);
                    extend(&mut dispatched, &served.lines);
                    extend(&mut irq_steps, &served.steps);
                    proof {
                        if seen(events@, i as int, TrapClass::External) {
                            lemma_serviced_again(
                                old(cpu).irq_ctrl,
                                cpu_mid.irq_ctrl,
                                cpu.irq_ctrl,
                                lines_mid,
                                served.lines@,
                            );
                            assert(served.steps@.len() == 0);
                            assert(steps_mid + served.steps@ == steps_mid);
                        } else {
                            assert(lines_mid + served.lines@ == served.lines@);
                            assert(steps_mid + served.steps@ == served.steps@);
                        }
                    }
                },
                _ => {},
            }
            let needs_probe = resolution.return_reason().is_none();
            reason = conclude(cpu, resolution, needs_probe && event.kernel_event);
            proof {
                let n = i as int;
                let class = class_of(event.trap.cause);
                assert(seen(events@, n + 1, TrapClass::FpuUnavailable) == (seen(
                    events@,
                    n,
                    TrapClass::FpuUnavailable,
                ) || class == TrapClass::FpuUnavailable)) by {
                    if seen(events@, n + 1, TrapClass::FpuUnavailable) && class
                        != TrapClass::FpuUnavailable {
                        let j = choose|j: int|
                            0 <= j < n + 1 && class_of(#[trigger] events@[j].trap.cause)
                                == TrapClass::FpuUnavailable;
                        assert(j < n);
                    }
                    if seen(events@, n, TrapClass::FpuUnavailable) {
                        let j = choose|j: int|
                            0 <= j < n && class_of(#[trigger] events@[j].trap.cause)
                                == TrapClass::FpuUnavailable;
                        assert(0 <= j < n + 1);
                    }
                }
                assert(seen(events@, n + 1, TrapClass::External) == (seen(
                    events@,
                    n,
                    TrapClass::External,
                ) || class == TrapClass::External)) by {
                    if seen(events@, n + 1, TrapClass::External) && class != TrapClass::External {
                        let j = choose|j: int|
                            0 <= j < n + 1 && class_of(#[trigger] events@[j].trap.cause)
                                == TrapClass::External;
                        assert(j < n);
                    }
                    if seen(events@, n, TrapClass::External) {
                        let j = choose|j: int|
                            0 <= j < n && class_of(#[trigger] events@[j].trap.cause)
                                == TrapClass::External;
                        assert(0 <= j < n + 1);
                    }
                }
                assert forall|k: int| 0 <= k < old(cpu).tlb.slots@.len() implies #[trigger] cpu.tlb.slots@[k]
                    == (if class == TrapClass::MemoryFault && slot_maps(
                    old(cpu).tlb.slots@[k],
                    page_base(event.trap.badv as int),
                ) {
                    None
                } else {
                    old(cpu).tlb.slots@[k]
                }) by {
                    assert(cpu_mid.tlb.slots@[k] == old(cpu).tlb.slots@[k]);
                    if class != TrapClass::MemoryFault {
                        assert(cpu.tlb.slots@ == cpu_mid.tlb.slots@);
                    }
                }
                if reason is None {
                    assert(!stops(events@[n]));
                    assert(reached(events@, n + 1));
                }
            }
            i += 1;
        }
        Execution { reason, traps: i, timer_ticks, dispatched, irq_steps }
    }
}

/// Two system calls in a row move the saved program counter by two
/// instruction widths: the steps add up.
pub proof fn lemma_syscalls_accumulate(ctx: UserContext)
    requires
        ctx.user_context.era + 2 * INSTRUCTION_WIDTH <= usize::MAX,
    ensures
        ctx.after_syscall().user_context.era == ctx.user_context.era + INSTRUCTION_WIDTH,
        ctx.after_syscall().after_syscall().user_context.era == ctx.user_context.era + 2
            * INSTRUCTION_WIDTH,
        ctx.after_syscall().after_syscall() == ctx.with_era(
            (ctx.user_context.era + 2 * INSTRUCTION_WIDTH) as usize,
        ),
{
}

/// A use of the switched-off floating-point unit is never what the
/// dispatcher returns: the trap gives no reason of its own, so a run ends
/// after it only for a pending kernel event, and the exception that a run
/// records when it returns for a user exception is never this one.
pub proof fn lemma_fpu_fault_stays_inside(event: TrapEvent)
    ensures
        class_of(event.trap.cause) == TrapClass::FpuUnavailable ==> {
            &&& reason_of(class_of(event.trap.cause)) is None
            &&& stops(event) == event.kernel_event
            &&& reason_at(event) == ReturnReason::KernelEvent
        },
        stops(event) && reason_at(event) == ReturnReason::UserException ==> info_of(
            event.trap,
        ).code != Exception::FloatingPointUnavailable,
{
}

/// In a run that met a use of the switched-off floating-point unit, the
/// unit is on afterwards, and no such trap but the last one taken can have
/// ended the run: where the last trap taken is one, the run returned for a
/// pending kernel event or is still going on.
pub proof fn lemma_run_resolves_fpu_faults(
    before: UserContext,
    cpu_before: Cpu,
    events: Seq<TrapEvent>,
    handled: int,
    after: UserContext,
    cpu_after: Cpu,
    reason: Option<ReturnReason>,
    timer_ticks: int,
    lines: Seq<usize>,
    steps: Seq<IrqStep>,
    j: int,
)
    requires
        ran(
            before,
            cpu_before,
            events,
            handled,
            after,
            cpu_after,
            reason,
            timer_ticks,
            lines,
            steps,
        ),
        0 <= j < handled,
        class_of(events[j].trap.cause) == TrapClass::FpuUnavailable,
    ensures
        after.user_context.euen == 1,
        j < handled - 1 ==> !events[j].kernel_event,
        j == handled - 1 ==> reason is None || reason == Some(ReturnReason::KernelEvent),
        reason == Some(ReturnReason::UserException) ==> after.cpu_exception_info.code
            != Exception::FloatingPointUnavailable,
{
    assert(seen(events, handled, TrapClass::FpuUnavailable));
    if j < handled - 1 {
        assert(!stops(events[j]));
    }
}

/// A run whose first trap is a system call takes that one trap and
/// returns for the system call, with the saved program counter moved by
/// one instruction width and nothing else of the context changed. The
/// probe for kernel events is not asked.
pub proof fn lemma_syscall_ends_the_run(
    before: UserContext,
    cpu_before: Cpu,
    events: Seq<TrapEvent>,
    handled: int,
    after: UserContext,
    cpu_after: Cpu,
    reason: Option<ReturnReason>,
    timer_ticks: int,
    lines: Seq<usize>,
    steps: Seq<IrqStep>,
)
    requires
        ran(
            before,
            cpu_before,
            events,
            handled,
            after,
            cpu_after,
            reason,
            timer_ticks,
            lines,
            steps,
        ),
        reason is None ==> handled == events.len(),
        events.len() >= 1,
        class_of(events[0].trap.cause) == TrapClass::Syscall,
    ensures
        handled == 1,
        reason == Some(ReturnReason::UserSyscall),
        after == before.with_era((before.user_context.era + INSTRUCTION_WIDTH) as usize),
        timer_ticks == 0,
{
    assert(stops(events[0]));
    if handled >= 2 {
        assert(!stops(events[0]));
    }
    assert(handled == 1);
    assert(timer_ticks_in(events, 0) == 0);
    assert(!seen(events, 1, TrapClass::FpuUnavailable));
    assert(after.user_context =~= before.with_era(
        (before.user_context.era + INSTRUCTION_WIDTH) as usize,
    ).user_context);
}

/// A run that meets uses of the switched-off floating-point unit, with no
/// kernel event pending after them, and then a trap that ends the run,
/// returns what that last trap alone gives: the faults before it are
/// resolved inside, each by one more turn of the loop, and the unit is on
/// afterwards.
pub proof fn lemma_fpu_faults_then_end(
    before: UserContext,
    cpu_before: Cpu,
    events: Seq<TrapEvent>,
    handled: int,
    after: UserContext,
    cpu_after: Cpu,
    reason: Option<ReturnReason>,
    timer_ticks: int,
    lines: Seq<usize>,
    steps: Seq<IrqStep>,
    n: int,
)
    requires
        ran(
            before,
            cpu_before,
            events,
            handled,
            after,
            cpu_after,
            reason,
            timer_ticks,
            lines,
            steps,
        ),
        reason is None ==> handled == events.len(),
        1 <= n < events.len(),
        forall|j: int|
            0 <= j < n ==> class_of(#[trigger] events[j].trap.cause) == TrapClass::FpuUnavailable
                && !events[j].kernel_event,
        stops(events[n]),
    ensures
        handled == n + 1,
        reason == Some(reason_at(events[n])),
        after.user_context.euen == 1,
        reason == Some(ReturnReason::UserException) ==> after.cpu_exception_info == info_of(
            events[n].trap,
        ) && after.cpu_exception_info.code != Exception::FloatingPointUnavailable,
{
    assert forall|j: int| 0 <= j < n implies !stops(#[trigger] events[j]) by {
        assert(class_of(events[j].trap.cause) == TrapClass::FpuUnavailable);
    }
    if handled <= n {
        if handled > 0 {
            assert(!stops(events[handled - 1]));
        }
    }
    if handled > n + 1 {
        assert(!stops(events[n]));
    }
    assert(class_of(events[0].trap.cause) == TrapClass::FpuUnavailable);
    assert(seen(events, handled, TrapClass::FpuUnavailable));
}

} // verus!
