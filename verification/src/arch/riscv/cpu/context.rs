//! The execution context of a user program and the dispatcher of its traps.

use vstd::prelude::*;
use riscv::register::scause::Exception as RawException;
use riscv::register::scause::Interrupt as RawInterrupt;
use crate::arch::riscv::trap::{
    with_fs_initial, GeneralRegs, TrapFrame, UserContext as RawUserContext, SSTATUS_FS_INITIAL,
    SSTATUS_FS_MASK,
};
use crate::irq::{
    extend, lemma_protocol_concat, lemma_protocol_push, protocol, IrqStep, Service,
};
use crate::mm::{page_base, slot_maps, tlb_flush_addr, Tlb};
use crate::user::ReturnReason;

verus! {

/// An exception that an instruction raised.
#[derive(Clone, Copy, Debug, PartialEq, Eq, Structural)]
pub enum Exception {
    InstructionMisaligned,
    InstructionFault,
    IllegalInstruction,
    Breakpoint,
    LoadMisaligned,
    LoadFault,
    StoreMisaligned,
    StoreFault,
    UserEnvCall,
    SupervisorEnvCall,
    InstructionPageFault,
    LoadPageFault,
    StorePageFault,
    Unknown,
}

/// An interrupt that the core took.
#[derive(Clone, Copy, Debug, PartialEq, Eq, Structural)]
pub enum Interrupt {
    SupervisorSoft,
    SupervisorTimer,
    SupervisorExternal,
    Unknown,
}

/// What stopped the program.
#[derive(Clone, Copy, Debug, PartialEq, Eq, Structural)]
pub enum Trap {
    Interrupt(Interrupt),
    Exception(Exception),
}

/// CPU exception.
pub type CpuException = Exception;

impl Exception {
    /// The exception that the cause register names by `nr`.
    pub open spec fn of_code(nr: int) -> Exception {
        if nr == 0 {
            Exception::InstructionMisaligned
        } else if nr == 1 {
            Exception::InstructionFault
        } else if nr == 2 {
            Exception::IllegalInstruction
        } else if nr == 3 {
            Exception::Breakpoint
        } else if nr == 4 {
            Exception::LoadMisaligned
        } else if nr == 5 {
            Exception::LoadFault
        } else if nr == 6 {
            Exception::StoreMisaligned
        } else if nr == 7 {
            Exception::StoreFault
        } else if nr == 8 {
            Exception::UserEnvCall
        } else if nr == 9 {
            Exception::SupervisorEnvCall
        } else if nr == 12 {
            Exception::InstructionPageFault
        } else if nr == 13 {
            Exception::LoadPageFault
        } else if nr == 15 {
            Exception::StorePageFault
        } else {
            Exception::Unknown
        }
    }
}

impl Interrupt {
    /// The interrupt that the cause register names by `nr`.
    pub open spec fn of_code(nr: int) -> Interrupt {
        if nr == 1 {
            Interrupt::SupervisorSoft
        } else if nr == 5 {
            Interrupt::SupervisorTimer
        } else if nr == 9 {
            Interrupt::SupervisorExternal
        } else {
            Interrupt::Unknown
        }
    }
}

/// Calls `riscv::register::scause::Exception::from` on an exception code.
/// Claims that the result is the exception which the table of `of_code`
/// gives for that code: the codes 0 to 9, 12, 13 and 15 name one exception
/// each, and every other code is unknown.
#[verifier::external_body]
fn exception_from_code(nr: usize) -> (r: Exception)
    ensures
        r == Exception::of_code(nr as int),
{
    match RawException::from(nr) {
        RawException::InstructionMisaligned => Exception::InstructionMisaligned, RawException::InstructionFault => Exception::InstructionFault,
        RawException::IllegalInstruction => Exception::IllegalInstruction,
        RawException::Breakpoint => Exception::Breakpoint,
        RawException::LoadMisaligned => Exception::LoadMisaligned,
        RawException::LoadFault => Exception::LoadFault,
        RawException::StoreMisaligned => Exception::StoreMisaligned,
        RawException::StoreFault => Exception::StoreFault,
        RawException::UserEnvCall => Exception::UserEnvCall, RawException::SupervisorEnvCall => Exception::SupervisorEnvCall,
        RawException::InstructionPageFault => Exception::InstructionPageFault,
        RawException::LoadPageFault => Exception::LoadPageFault,
        RawException::StorePageFault => Exception::StorePageFault,
        RawException::Unknown => Exception::Unknown,
    }
}

/// Calls `riscv::register::scause::Interrupt::from` on an interrupt code.
/// Claims that the result is the interrupt which the table of `of_code`
/// gives for that code: 1 is the software interrupt, 5 the timer, 9 the
/// external interrupt, and every other code is unknown.
#[verifier::external_body]
fn interrupt_from_code(nr: usize) -> (r: Interrupt)
    ensures
        r == Interrupt::of_code(nr as int),
{
    match RawInterrupt::from(nr) {
        RawInterrupt::SupervisorSoft => Interrupt::SupervisorSoft,
        RawInterrupt::SupervisorTimer => Interrupt::SupervisorTimer,
        RawInterrupt::SupervisorExternal => Interrupt::SupervisorExternal,
        RawInterrupt::Unknown => Interrupt::Unknown,
    }
}

/// The highest bit of a machine word, which marks an interrupt in the
/// cause register.
pub open spec fn interrupt_flag() -> usize {
    1usize << ((usize::BITS - 1) as usize)
}

impl Trap {
    /// The trap that the bits of the cause register spell: the highest bit
    /// tells an interrupt from an exception, the other bits are the code.
    pub open spec fn of_scause(bits: usize) -> Trap {
        if bits & interrupt_flag() != 0 {
            Trap::Interrupt(Interrupt::of_code((bits & !interrupt_flag()) as int))
        } else {
            Trap::Exception(Exception::of_code((bits & !interrupt_flag()) as int))
        }
    }

    /// Decodes the bits of the cause register.
    pub fn from_scause(bits: usize) -> (r: Trap)
        ensures
            r == Trap::of_scause(bits),
    {
        let flag: usize = 1usize << ((usize::BITS - 1) as usize);
        let code: usize = bits & !flag;
        if bits & flag != 0 {
            Trap::Interrupt(interrupt_from_code(code))
        } else {
            Trap::Exception(exception_from_code(code))
        }
    }
}

/// The kinds of trap that the dispatcher tells apart.
#[derive(Clone, Copy, Debug, PartialEq, Eq, Structural)]
pub enum TrapClass {
    /// The program asks for a system call.
    Syscall,
    /// A memory access found no usable translation.
    MemoryFault,
    /// The program ran an instruction that does not exist or that it may
    /// not run.
    IllegalInstruction,
    /// The program did something else that it may not do.
    Fault,
    /// The timer fired.
    Timer,
    /// A device asks for attention.
    External,
    /// The machine cannot go on.
    Fatal,
}

/// The kind of trap that `cause` is.
pub open spec fn class_of(cause: Trap) -> TrapClass {
    match cause {
        Trap::Interrupt(Interrupt::SupervisorTimer) => TrapClass::Timer,
        Trap::Interrupt(Interrupt::SupervisorExternal) => TrapClass::External,
        Trap::Interrupt(_) => TrapClass::Fatal,
        Trap::Exception(Exception::UserEnvCall) => TrapClass::Syscall,
        Trap::Exception(Exception::StorePageFault)
        | Trap::Exception(Exception::LoadPageFault)
        | Trap::Exception(Exception::InstructionPageFault) => TrapClass::MemoryFault,
        Trap::Exception(Exception::IllegalInstruction) => TrapClass::IllegalInstruction,
        Trap::Exception(Exception::Unknown) => TrapClass::Fatal,
        Trap::Exception(_) => TrapClass::Fault,
    }
}

/// Tells the kind of trap that `cause` is.
pub fn classify(cause: Trap) -> (r: TrapClass)
    ensures
        r == class_of(cause),
{
    match cause {
        Trap::Interrupt(Interrupt::SupervisorTimer) => TrapClass::Timer,
        Trap::Interrupt(Interrupt::SupervisorExternal) => TrapClass::External,
        Trap::Interrupt(_) => TrapClass::Fatal,
        Trap::Exception(Exception::UserEnvCall) => TrapClass::Syscall,
        Trap::Exception(Exception::StorePageFault)
        | Trap::Exception(Exception::LoadPageFault)
        | Trap::Exception(Exception::InstructionPageFault) => TrapClass::MemoryFault,
        Trap::Exception(Exception::IllegalInstruction) => TrapClass::IllegalInstruction,
        Trap::Exception(Exception::Unknown) => TrapClass::Fatal,
        Trap::Exception(_) => TrapClass::Fault,
    }
}

/// CPU exception information.
#[derive(Clone, Copy, Debug, PartialEq, Eq, Structural)]
pub struct CpuExceptionInfo {
    /// The type of the exception.
    pub code: Exception,
    /// The page fault address.
    pub page_fault_addr: usize,
    /// The error code associated with the exception.
    pub error_code: usize,
    /// The instruction that could not be run.
    pub illegal_instruction: usize,
}

impl Default for CpuExceptionInfo {
    fn default() -> (r: Self)
        ensures
            r == (CpuExceptionInfo {
                code: Exception::Unknown,
                page_fault_addr: 0,
                error_code: 0,
                illegal_instruction: 0,
            }),
    {
        CpuExceptionInfo {
            code: Exception::Unknown,
            page_fault_addr: 0,
            error_code: 0,
            illegal_instruction: 0,
        }
    }
}

impl CpuExceptionInfo {
    /// Get corresponding CPU exception
    pub fn cpu_exception(&self) -> (r: CpuException)
        ensures
            r == self.code,
    {
        self.code
    }
}

/// The FPU state of user task.
///
/// This could be used for saving both legacy and modern state format.
#[derive(Clone, Copy, Debug, PartialEq, Eq)]
pub struct FpuState {
    /// The 32 floating-point registers, as raw bits.
    pub f: [u64; 32],
    /// The control and status register.
    pub fscr: u32,
}

/// The status of the floating-point unit.
#[derive(Clone, Copy, Debug, PartialEq, Eq, Structural)]
pub enum FS {
    /// The unit is off.
    Off,
    /// The unit is on and its registers hold their reset values.
    Initial,
    /// The registers are as they were last saved or restored.
    Clean,
    /// The registers have changed since they were last saved.
    Dirty,
}

/// The floating-point unit of a core: its registers and its status.
#[derive(Clone, Copy, Debug, PartialEq, Eq)]
pub struct Fpu {
    pub regs: FpuState,
    pub fs: FS,
}

impl FpuState {
    /// Whether every register is zero.
    pub open spec fn is_zeroed(self) -> bool {
        self.fscr == 0 && forall|i: int| 0 <= i < 32 ==> self.f@[i] == 0
    }

    /// Saves CPU's current FPU state into this instance: where the
    /// registers have changed since they were last saved, they are copied
    /// here and the unit is marked clean. Otherwise nothing happens.
    pub fn save(&mut self, fpu: &mut Fpu)
        ensures
            old(fpu).fs == FS::Dirty ==> *final(self) == old(fpu).regs && *final(fpu) == (Fpu {
                fs: FS::Clean,
                ..*old(fpu)
            }),
            old(fpu).fs != FS::Dirty ==> *final(self) == *old(self) && *final(fpu) == *old(fpu),
    {
        match fpu.fs {
            FS::Dirty => {
                *self = fpu.regs;
                fpu.fs = FS::Clean;
            },
            _ => {},
        }
    }

    /// Restores CPU's FPU state from this instance: where the unit is in
    /// use, its registers become a copy of this state; where it is on but
    /// untouched, its registers are reset to zero; where it is off,
    /// nothing happens. The status stays as it was.
    pub fn restore(&self, fpu: &mut Fpu)
        ensures
            final(fpu).fs == old(fpu).fs,
            match old(fpu).fs {
                FS::Dirty | FS::Clean => final(fpu).regs == *self,
                FS::Initial => final(fpu).regs.is_zeroed(),
                FS::Off => final(fpu).regs == old(fpu).regs,
            },
    {
        match fpu.fs {
            FS::Dirty | FS::Clean => {
                fpu.regs = *self;
            },
            FS::Initial => {
                fpu.regs = FpuState::default();
                fpu.fs = FS::Initial;
            },
            FS::Off => {},
        }
    }
}

impl Default for FpuState {
    fn default() -> (r: Self)
        ensures
            r.is_zeroed(),
    {
        FpuState { f: [0u64;32], fscr: 0 }
    }
}

/// Cpu context, including both general-purpose registers and FPU state.
#[derive(Clone, Copy, Debug, PartialEq, Eq)]
pub struct UserContext {
    pub user_context: RawUserContext,
    pub trap: Trap,
    pub fpu_state: FpuState,
    pub cpu_exception_info: CpuExceptionInfo,
}

impl Default for UserContext {
    fn default() -> (r: Self)
        ensures
            r.user_context.general == GeneralRegs::zeroed(),
            r.user_context.sstatus == 0,
            r.user_context.sepc == 0,
            r.trap == Trap::Exception(Exception::Unknown),
            r.fpu_state.is_zeroed(),
            r.cpu_exception_info == (CpuExceptionInfo {
                code: Exception::Unknown,
                page_fault_addr: 0,
                error_code: 0,
                illegal_instruction: 0,
            }),
    {
        UserContext {
            user_context: RawUserContext::default(),
            trap: Trap::Exception(Exception::Unknown),
            fpu_state: FpuState::default(),
            cpu_exception_info: CpuExceptionInfo::default(),
        }
    }
}

/// The hardware of one core that the dispatcher touches.
#[derive(Debug)]
pub struct Cpu {
    /// The translation cache.
    pub tlb: Tlb,
    /// Whether the core takes interrupts.
    pub irq_enabled: bool,
    /// Whether an interrupt that stopped kernel code is being served.
    pub kernel_interrupted: bool,
}

/// What the hardware reports of one trap.
#[derive(Clone, Copy, Debug, PartialEq, Eq, Structural)]
pub struct TrapRecord {
    /// What stopped the program.
    pub cause: Trap,
    /// The trap value: the address of a failed access, or the instruction
    /// that could not be run.
    pub stval: usize,
    /// The address of the instruction that trapped.
    pub sepc: usize,
}

/// What the dispatcher did about one trap, and what is left for its caller
/// to do.
#[derive(Clone, Copy, Debug, PartialEq, Eq, Structural)]
pub enum Resolution {
    /// A system call: the saved program counter has moved past the
    /// instruction.
    Syscall,
    /// A memory fault: the translation of the address is gone from the
    /// cache and the exception is recorded.
    PageFault,
    /// Another fault: the exception is recorded. The caller reports it.
    Fault,
    /// The timer fired. The caller runs the timer callback.
    TimerTick,
    /// Devices ask for attention. Nothing has been claimed yet: the caller
    /// claims a line, runs its callbacks and only then completes it, one
    /// line after the other, until a claim finds none.
    External,
}

/// The saved program counter moves by this much past a system call: the
/// width of one instruction.
pub const INSTRUCTION_WIDTH: usize = 4;

impl Resolution {
    /// The reason with which the dispatcher returns after this resolution,
    /// or `None` where the program may go on.
    pub open spec fn reason(self) -> Option<ReturnReason> {
        match self {
            Resolution::Syscall => Some(ReturnReason::UserSyscall),
            Resolution::PageFault | Resolution::Fault => Some(ReturnReason::UserException),
            _ => None,
        }
    }

    /// The reason with which the dispatcher returns after this resolution,
    /// or `None` where the program may go on.
    pub fn return_reason(&self) -> (r: Option<ReturnReason>)
        ensures
            r == self.reason(),
    {
        match self {
            Resolution::Syscall => Some(ReturnReason::UserSyscall),
            Resolution::PageFault | Resolution::Fault => Some(ReturnReason::UserException),
            _ => None,
        }
    }
}

/// The reason with which the run ends once a trap has been resolved as
/// `resolution` and the probe for kernel events has answered
/// `kernel_event`: the reason of the resolution where it has one, else a
/// kernel event where one is pending, else none, and the program goes on.
pub open spec fn outcome(resolution: Resolution, kernel_event: bool) -> Option<ReturnReason> {
    match resolution.reason() {
        Some(r) => Some(r),
        None => if kernel_event {
            Some(ReturnReason::KernelEvent)
        } else {
            None
        },
    }
}

/// Decides whether the run ends once a trap has been resolved, and with
/// which reason. The probe for kernel events is asked only after a
/// resolution that has no reason of its own; `kernel_event` is its answer.
/// Where the run ends, the core takes interrupts again; nothing else of
/// the core changes.
pub fn conclude(cpu: &mut Cpu, resolution: Resolution, kernel_event: bool) -> (r: Option<
    ReturnReason,
>)
    ensures
        r == outcome(resolution, kernel_event),
        final(cpu).irq_enabled == (r is Some || old(cpu).irq_enabled),
        final(cpu).tlb == old(cpu).tlb,
        final(cpu).kernel_interrupted == old(cpu).kernel_interrupted,
{
    let r = match resolution.return_reason() {
        Some(r) => Some(r),
        None => if kernel_event {
            Some(ReturnReason::KernelEvent)
        } else {
            None
        },
    };
    if r.is_some() {
        cpu.irq_enabled = true;
    }
    r
}

/// The reason with which the dispatcher returns after a trap of kind
/// `class`, or `None` where the program may go on.
pub open spec fn reason_of(class: TrapClass) -> Option<ReturnReason> {
    match class {
        TrapClass::Syscall => Some(ReturnReason::UserSyscall),
        TrapClass::MemoryFault
        | TrapClass::IllegalInstruction
        | TrapClass::Fault => Some(ReturnReason::UserException),
        _ => None,
    }
}

/// The exception that is recorded for `trap`: a memory fault comes with
/// the address of the access, an illegal instruction with its own address
/// and encoding.
pub open spec fn info_of(trap: TrapRecord) -> CpuExceptionInfo {
    CpuExceptionInfo {
        code: trap.cause->Exception_0,
        page_fault_addr: match class_of(trap.cause) {
            TrapClass::MemoryFault => trap.stval,
            TrapClass::IllegalInstruction => trap.sepc,
            _ => 0,
        },
        error_code: 0,
        illegal_instruction: if class_of(trap.cause) == TrapClass::IllegalInstruction {
            trap.stval
        } else {
            0
        },
    }
}

/// Whether `lines` are the lines that a device interrupt serves when the
/// controller answers `claims`: the answers up to the first 0, or all of
/// them where none is 0.
pub open spec fn claimed_lines(claims: Seq<usize>, lines: Seq<usize>) -> bool {
    &&& lines.len() <= claims.len()
    &&& lines == claims.take(lines.len() as int)
    &&& forall|i: int| 0 <= i < lines.len() ==> #[trigger] lines[i] != 0
    &&& lines.len() < claims.len() ==> claims[lines.len() as int] == 0
}

/// The lines that a device interrupt serves when the controller answers
/// `claims`: the answers before the first 0.
pub open spec fn served(claims: Seq<usize>) -> Seq<usize>
    decreases claims.len(),
{
    if claims.len() == 0 || claims[0] == 0 {
        Seq::empty()
    } else {
        seq![claims[0]] + served(claims.skip(1))
    }
}

/// Serves the lines that the controller hands out: takes its answers one
/// after the other until one says that nothing is pending; each line
/// claimed is handed out for its callbacks and completed only after that.
/// Returns the lines in the order in which they were claimed, and the
/// steps in the order in which they were taken.
pub fn serve_claims(claims: &Vec<usize>) -> (served: Service)
    ensures
        claimed_lines(claims@, served.lines@),
        served.lines@ == self::served(claims@),
        served.steps@ == protocol(served.lines@),
{
    let mut lines: Vec<usize> = Vec::new();
    let mut steps: Vec<IrqStep> = Vec::new();
    let mut i: usize = 0;
    assert(claims@.skip(0) == claims@);
    assert(steps@ =~= protocol(lines@));
    while i < claims.len() && claims[i] != 0
        invariant
            i <= claims@.len(),
            lines@ == claims@.take(i as int),
            steps@ == protocol(lines@),
            forall|j: int| 0 <= j < i ==> #[trigger] lines@[j] != 0,
            lines@ + self::served(claims@.skip(i as int)) == self::served(claims@),
        decreases claims@.len() - i,
    {
        let line: usize = claims[i];
        proof {
            lemma_protocol_push(lines@, line);
            let rest = claims@.skip(i as int);
            assert(claims@.take(i + 1) == claims@.take(i as int).push(claims@[i as int]));
            assert(rest[0] == claims@[i as int]);
            assert(rest.skip(1) == claims@.skip(i + 1));
            assert(self::served(rest) == seq![rest[0]] + self::served(rest.skip(1)));
            assert(claims@.take(i as int) + (seq![rest[0]] + self::served(rest.skip(1)))
                == claims@.take(i as int).push(rest[0]) + self::served(rest.skip(1)));
        }
        steps.push(IrqStep::Dispatch(line));
        steps.push(IrqStep::Complete(line));
        lines.push(line);
        i += 1;
    }
    proof {
        let rest = claims@.skip(i as int);
        if i < claims@.len() {
            assert(rest[0] == claims@[i as int]);
        }
        assert(self::served(rest) == Seq::<usize>::empty());
        assert(lines@ + Seq::<usize>::empty() == lines@);
    }
    Service { lines, steps }
}

impl UserContext {
    /// The context with `general` as its general-purpose registers.
    pub open spec fn with_general(self, general: GeneralRegs) -> Self {
        UserContext { user_context: RawUserContext { general, ..self.user_context }, ..self }
    }

    /// The context with `sepc` as its saved program counter.
    pub open spec fn with_sepc(self, sepc: usize) -> Self {
        UserContext { user_context: RawUserContext { sepc, ..self.user_context }, ..self }
    }

    /// The context with `sstatus` as its saved status.
    pub open spec fn with_sstatus(self, sstatus: usize) -> Self {
        UserContext { user_context: RawUserContext { sstatus, ..self.user_context }, ..self }
    }

    /// The context after a system call trap: the saved program counter has
    /// moved by the width of one instruction.
    pub open spec fn after_syscall(self) -> Self {
        self.with_sepc((self.user_context.sepc + INSTRUCTION_WIDTH) as usize)
    }

    /// Returns a reference to the general registers.
    pub fn general_regs(&self) -> (r: &GeneralRegs)
        ensures
            *r == self.user_context.general,
    {
        &self.user_context.general
    }

    /// Returns a mutable reference to the general registers
    pub fn general_regs_mut(&mut self) -> (r: &mut GeneralRegs)
        ensures
            *r == old(self).user_context.general,
            *final(self) == old(self).with_general(*final(r)),
    {
        &mut self.user_context.general
    }

    /// Returns the trap information.
    pub fn trap_information(&self) -> (r: &CpuExceptionInfo)
        ensures
            *r == self.cpu_exception_info,
    {
        &self.cpu_exception_info
    }

    /// Returns a reference to the FPU state.
    pub fn fpu_state(&self) -> (r: &FpuState)
        ensures
            *r == self.fpu_state,
    {
        &self.fpu_state
    }

    /// Returns a mutable reference to the FPU state.
    pub fn fpu_state_mut(&mut self) -> (r: &mut FpuState)
        ensures
            *r == old(self).fpu_state,
            *final(self) == (UserContext { fpu_state: *final(r), ..*old(self) }),
    {
        &mut self.fpu_state
    }

    /// Sets thread-local storage pointer.
    pub fn set_tls_pointer(&mut self, tls: usize)
        ensures
            *final(self) == old(self).with_general(
                GeneralRegs { tp: tls, ..old(self).user_context.general },
            ),
    {
        self.set_tp(tls)
    }

    /// Gets thread-local storage pointer.
    pub fn tls_pointer(&self) -> (r: usize)
        ensures
            r == self.user_context.general.tp,
    {
        self.tp()
    }

    /// Activates thread-local storage pointer on the current CPU. The
    /// pointer lives in a general-purpose register, so there is nothing to do.
    pub fn activate_tls_pointer(&self) {
    }

    /// Initializes FPU state: the saved status says that the unit is on
    /// and untouched. No other bit of the status changes.
    pub fn init_fpu_state(&mut self)
        ensures
            *final(self) == old(self).with_sstatus(with_fs_initial(old(self).user_context.sstatus)),
    {
        let current: usize = self.user_context.sstatus;
        self.user_context.sstatus = (current & !SSTATUS_FS_MASK) | SSTATUS_FS_INITIAL;
    }

    /// The view of the context that interrupt callbacks get.
    pub fn as_trap_frame(&self) -> (r: TrapFrame)
        ensures
            r == (TrapFrame {
                general: self.user_context.general,
                sstatus: self.user_context.sstatus,
                sepc: self.user_context.sepc,
            }),
    {
        TrapFrame {
            general: self.user_context.general,
            sstatus: self.user_context.sstatus,
            sepc: self.user_context.sepc,
        }
    }

    /// The instruction pointer.
    pub fn instruction_pointer(&self) -> (r: usize)
        ensures
            r == self.user_context.sepc,
    {
        self.user_context.sepc
    }

    /// Sets the instruction pointer. Nothing else changes.
    pub fn set_instruction_pointer(&mut self, ip: usize)
        ensures
            *final(self) == old(self).with_sepc(ip),
    {
        self.user_context.set_ip(ip);
    }

    /// The stack pointer.
    pub fn stack_pointer(&self) -> (r: usize)
        ensures
            r == self.user_context.general.sp,
    {
        self.user_context.get_sp()
    }

    /// Sets the stack pointer. Nothing else changes.
    pub fn set_stack_pointer(&mut self, sp: usize)
        ensures
            *final(self) == old(self).with_general(
                GeneralRegs { sp: sp, ..old(self).user_context.general },
            ),
    {
        self.user_context.set_sp(sp);
    }

    /// Resolves one trap that stopped the program.
    ///
    /// A system call moves the saved program counter past the instruction.
    /// A memory fault drops the translation of the faulting address from
    /// the cache and records the exception with that address. An illegal
    /// instruction is recorded with its address and encoding, another
    /// fault by its code alone. A timer interrupt or a device interrupt
    /// changes nothing: the timer callback and the serving of the lines
    /// are left to the caller. What a case does not name stays as it was.
    pub fn handle_trap(&mut self, cpu: &mut Cpu, trap: &TrapRecord) -> (r: Resolution)
        requires
            class_of(trap.cause) != TrapClass::Fatal,
            class_of(trap.cause) == TrapClass::Syscall ==> old(self).user_context.sepc
                + INSTRUCTION_WIDTH <= usize::MAX,
        ensures
            final(cpu).irq_enabled == old(cpu).irq_enabled,
            final(cpu).kernel_interrupted == old(cpu).kernel_interrupted,
            r.reason() == reason_of(class_of(trap.cause)),
            match class_of(trap.cause) {
                TrapClass::Syscall => {
                    &&& r == Resolution::Syscall
                    &&& *final(self) == old(self).after_syscall()
                    &&& *final(cpu) == *old(cpu)
                },
                TrapClass::MemoryFault => {
                    &&& r == Resolution::PageFault
                    &&& *final(self) == (UserContext {
                        cpu_exception_info: info_of(*trap),
                        ..*old(self)
                    })
                    &&& final(cpu).tlb.slots@.len() == old(cpu).tlb.slots@.len()
                    &&& forall|i: int|
                        0 <= i < old(cpu).tlb.slots@.len() ==> #[trigger] final(cpu).tlb.slots@[i]
                            == (if slot_maps(old(cpu).tlb.slots@[i], page_base(trap.stval as int)) {
                            None
                        } else {
                            old(cpu).tlb.slots@[i]
                        })
                    &&& !final(cpu).tlb.caches(trap.stval as int)
                },
                TrapClass::IllegalInstruction | TrapClass::Fault => {
                    &&& r == Resolution::Fault
                    &&& *final(self) == (UserContext {
                        cpu_exception_info: info_of(*trap),
                        ..*old(self)
                    })
                    &&& *final(cpu) == *old(cpu)
                },
                TrapClass::Timer => {
                    &&& r == Resolution::TimerTick
                    &&& *final(self) == *old(self)
                    &&& *final(cpu) == *old(cpu)
                },
                TrapClass::External => {
                    &&& r == Resolution::External
                    &&& *final(self) == *old(self)
                    &&& *final(cpu) == *old(cpu)
                },
                TrapClass::Fatal => false,
            },
    {
        let code = match trap.cause {
            Trap::Exception(e) => e,
            _ => Exception::Unknown,
        };
        match classify(trap.cause) {
            TrapClass::Syscall => {
                self.user_context.sepc += INSTRUCTION_WIDTH;
                Resolution::Syscall
            },
            TrapClass::MemoryFault => {
                tlb_flush_addr(&mut cpu.tlb, trap.stval);
                self.cpu_exception_info = CpuExceptionInfo {
                    code,
                    page_fault_addr: trap.stval,
                    error_code: 0,
                    illegal_instruction: 0,
                };
                Resolution::PageFault
            },
            TrapClass::IllegalInstruction => {
                self.cpu_exception_info = CpuExceptionInfo {
                    code,
                    page_fault_addr: trap.sepc,
                    error_code: 0,
                    illegal_instruction: trap.stval,
                };
                Resolution::Fault
            },
            TrapClass::Fault => {
                self.cpu_exception_info = CpuExceptionInfo {
                    code,
                    page_fault_addr: 0,
                    error_code: 0,
                    illegal_instruction: 0,
                };
                Resolution::Fault
            },
            TrapClass::Timer => Resolution::TimerTick,
            TrapClass::External => Resolution::External,
            TrapClass::Fatal => Resolution::Fault,
        }
    }

    /// Gets the value of ra.
    #[inline(always)]
    pub fn ra(&self) -> (r: usize)
        ensures
            r == self.user_context.general.ra,
    {
        self.user_context.general.ra
    }

    /// Sets the value of ra. Nothing else changes.
    #[inline(always)]
    pub fn set_ra(&mut self, ra: usize)
        ensures
            *final(self) == old(self).with_general(
                GeneralRegs { ra: ra, ..old(self).user_context.general },
            ),
    {
        self.user_context.general.ra = ra;
    }

    /// Gets the value of sp.
    #[inline(always)]
    pub fn sp(&self) -> (r: usize)
        ensures
            r == self.user_context.general.sp,
    {
        self.user_context.general.sp
    }

    /// Sets the value of sp. Nothing else changes.
    #[inline(always)]
    pub fn set_sp(&mut self, sp: usize)
        ensures
            *final(self) == old(self).with_general(
                GeneralRegs { sp: sp, ..old(self).user_context.general },
            ),
    {
        self.user_context.general.sp = sp;
    }

    /// Gets the value of gp.
    #[inline(always)]
    pub fn gp(&self) -> (r: usize)
        ensures
            r == self.user_context.general.gp,
    {
        self.user_context.general.gp
    }

    /// Sets the value of gp. Nothing else changes.
    #[inline(always)]
    pub fn set_gp(&mut self, gp: usize)
        ensures
            *final(self) == old(self).with_general(
                GeneralRegs { gp: gp, ..old(self).user_context.general },
            ),
    {
        self.user_context.general.gp = gp;
    }

    /// Gets the value of tp.
    #[inline(always)]
    pub fn tp(&self) -> (r: usize)
        ensures
            r == self.user_context.general.tp,
    {
        self.user_context.general.tp
    }

    /// Sets the value of tp. Nothing else changes.
    #[inline(always)]
    pub fn set_tp(&mut self, tp: usize)
        ensures
            *final(self) == old(self).with_general(
                GeneralRegs { tp: tp, ..old(self).user_context.general },
            ),
    {
        self.user_context.general.tp = tp;
    }

    /// Gets the value of t0.
    #[inline(always)]
    pub fn t0(&self) -> (r: usize)
        ensures
            r == self.user_context.general.t0,
    {
        self.user_context.general.t0
    }

    /// Sets the value of t0. Nothing else changes.
    #[inline(always)]
    pub fn set_t0(&mut self, t0: usize)
        ensures
            *final(self) == old(self).with_general(
                GeneralRegs { t0: t0, ..old(self).user_context.general },
            ),
    {
        self.user_context.general.t0 = t0;
    }

    /// Gets the value of t1.
    #[inline(always)]
    pub fn t1(&self) -> (r: usize)
        ensures
            r == self.user_context.general.t1,
    {
        self.user_context.general.t1
    }

    /// Sets the value of t1. Nothing else changes.
    #[inline(always)]
    pub fn set_t1(&mut self, t1: usize)
        ensures
            *final(self) == old(self).with_general(
                GeneralRegs { t1: t1, ..old(self).user_context.general },
            ),
    {
        self.user_context.general.t1 = t1;
    }

    /// Gets the value of t2.
    #[inline(always)]
    pub fn t2(&self) -> (r: usize)
        ensures
            r == self.user_context.general.t2,
    {
        self.user_context.general.t2
    }

    /// Sets the value of t2. Nothing else changes.
    #[inline(always)]
    pub fn set_t2(&mut self, t2: usize)
        ensures
            *final(self) == old(self).with_general(
                GeneralRegs { t2: t2, ..old(self).user_context.general },
            ),
    {
        self.user_context.general.t2 = t2;
    }

    /// Gets the value of s0.
    #[inline(always)]
    pub fn s0(&self) -> (r: usize)
        ensures
            r == self.user_context.general.s0,
    {
        self.user_context.general.s0
    }

    /// Sets the value of s0. Nothing else changes.
    #[inline(always)]
    pub fn set_s0(&mut self, s0: usize)
        ensures
            *final(self) == old(self).with_general(
                GeneralRegs { s0: s0, ..old(self).user_context.general },
            ),
    {
        self.user_context.general.s0 = s0;
    }

    /// Gets the value of s1.
    #[inline(always)]
    pub fn s1(&self) -> (r: usize)
        ensures
            r == self.user_context.general.s1,
    {
        self.user_context.general.s1
    }

    /// Sets the value of s1. Nothing else changes.
    #[inline(always)]
    pub fn set_s1(&mut self, s1: usize)
        ensures
            *final(self) == old(self).with_general(
                GeneralRegs { s1: s1, ..old(self).user_context.general },
            ),
    {
        self.user_context.general.s1 = s1;
    }

    /// Gets the value of a0.
    #[inline(always)]
    pub fn a0(&self) -> (r: usize)
        ensures
            r == self.user_context.general.a0,
    {
        self.user_context.general.a0
    }

    /// Sets the value of a0. Nothing else changes.
    #[inline(always)]
    pub fn set_a0(&mut self, a0: usize)
        ensures
            *final(self) == old(self).with_general(
                GeneralRegs { a0: a0, ..old(self).user_context.general },
            ),
    {
        self.user_context.general.a0 = a0;
    }

    /// Gets the value of a1.
    #[inline(always)]
    pub fn a1(&self) -> (r: usize)
        ensures
            r == self.user_context.general.a1,
    {
        self.user_context.general.a1
    }

    /// Sets the value of a1. Nothing else changes.
    #[inline(always)]
    pub fn set_a1(&mut self, a1: usize)
        ensures
            *final(self) == old(self).with_general(
                GeneralRegs { a1: a1, ..old(self).user_context.general },
            ),
    {
        self.user_context.general.a1 = a1;
    }

    /// Gets the value of a2.
    #[inline(always)]
    pub fn a2(&self) -> (r: usize)
        ensures
            r == self.user_context.general.a2,
    {
        self.user_context.general.a2
    }

    /// Sets the value of a2. Nothing else changes.
    #[inline(always)]
    pub fn set_a2(&mut self, a2: usize)
        ensures
            *final(self) == old(self).with_general(
                GeneralRegs { a2: a2, ..old(self).user_context.general },
            ),
    {
        self.user_context.general.a2 = a2;
    }

    /// Gets the value of a3.
    #[inline(always)]
    pub fn a3(&self) -> (r: usize)
        ensures
            r == self.user_context.general.a3,
    {
        self.user_context.general.a3
    }

    /// Sets the value of a3. Nothing else changes.
    #[inline(always)]
    pub fn set_a3(&mut self, a3: usize)
        ensures
            *final(self) == old(self).with_general(
                GeneralRegs { a3: a3, ..old(self).user_context.general },
            ),
    {
        self.user_context.general.a3 = a3;
    }

    /// Gets the value of a4.
    #[inline(always)]
    pub fn a4(&self) -> (r: usize)
        ensures
            r == self.user_context.general.a4,
    {
        self.user_context.general.a4
    }

    /// Sets the value of a4. Nothing else changes.
    #[inline(always)]
    pub fn set_a4(&mut self, a4: usize)
        ensures
            *final(self) == old(self).with_general(
                GeneralRegs { a4: a4, ..old(self).user_context.general },
            ),
    {
        self.user_context.general.a4 = a4;
    }

    /// Gets the value of a5.
    #[inline(always)]
    pub fn a5(&self) -> (r: usize)
        ensures
            r == self.user_context.general.a5,
    {
        self.user_context.general.a5
    }

    /// Sets the value of a5. Nothing else changes.
    #[inline(always)]
    pub fn set_a5(&mut self, a5: usize)
        ensures
            *final(self) == old(self).with_general(
                GeneralRegs { a5: a5, ..old(self).user_context.general },
            ),
    {
        self.user_context.general.a5 = a5;
    }

    /// Gets the value of a6.
    #[inline(always)]
    pub fn a6(&self) -> (r: usize)
        ensures
            r == self.user_context.general.a6,
    {
        self.user_context.general.a6
    }

    /// Sets the value of a6. Nothing else changes.
    #[inline(always)]
    pub fn set_a6(&mut self, a6: usize)
        ensures
            *final(self) == old(self).with_general(
                GeneralRegs { a6: a6, ..old(self).user_context.general },
            ),
    {
        self.user_context.general.a6 = a6;
    }

    /// Gets the value of a7.
    #[inline(always)]
    pub fn a7(&self) -> (r: usize)
        ensures
            r == self.user_context.general.a7,
    {
        self.user_context.general.a7
    }

    /// Sets the value of a7. Nothing else changes.
    #[inline(always)]
    pub fn set_a7(&mut self, a7: usize)
        ensures
            *final(self) == old(self).with_general(
                GeneralRegs { a7: a7, ..old(self).user_context.general },
            ),
    {
        self.user_context.general.a7 = a7;
    }

    /// Gets the value of s2.
    #[inline(always)]
    pub fn s2(&self) -> (r: usize)
        ensures
            r == self.user_context.general.s2,
    {
        self.user_context.general.s2
    }

    /// Sets the value of s2. Nothing else changes.
    #[inline(always)]
    pub fn set_s2(&mut self, s2: usize)
        ensures
            *final(self) == old(self).with_general(
                GeneralRegs { s2: s2, ..old(self).user_context.general },
            ),
    {
        self.user_context.general.s2 = s2;
    }

    /// Gets the value of s3.
    #[inline(always)]
    pub fn s3(&self) -> (r: usize)
        ensures
            r == self.user_context.general.s3,
    {
        self.user_context.general.s3
    }

    /// Sets the value of s3. Nothing else changes.
    #[inline(always)]
    pub fn set_s3(&mut self, s3: usize)
        ensures
            *final(self) == old(self).with_general(
                GeneralRegs { s3: s3, ..old(self).user_context.general },
            ),
    {
        self.user_context.general.s3 = s3;
    }

    /// Gets the value of s4.
    #[inline(always)]
    pub fn s4(&self) -> (r: usize)
        ensures
            r == self.user_context.general.s4,
    {
        self.user_context.general.s4
    }

    /// Sets the value of s4. Nothing else changes.
    #[inline(always)]
    pub fn set_s4(&mut self, s4: usize)
        ensures
            *final(self) == old(self).with_general(
                GeneralRegs { s4: s4, ..old(self).user_context.general },
            ),
    {
        self.user_context.general.s4 = s4;
    }

    /// Gets the value of s5.
    #[inline(always)]
    pub fn s5(&self) -> (r: usize)
        ensures
            r == self.user_context.general.s5,
    {
        self.user_context.general.s5
    }

    /// Sets the value of s5. Nothing else changes.
    #[inline(always)]
    pub fn set_s5(&mut self, s5: usize)
        ensures
            *final(self) == old(self).with_general(
                GeneralRegs { s5: s5, ..old(self).user_context.general },
            ),
    {
        self.user_context.general.s5 = s5;
    }

    /// Gets the value of s6.
    #[inline(always)]
    pub fn s6(&self) -> (r: usize)
        ensures
            r == self.user_context.general.s6,
    {
        self.user_context.general.s6
    }

    /// Sets the value of s6. Nothing else changes.
    #[inline(always)]
    pub fn set_s6(&mut self, s6: usize)
        ensures
            *final(self) == old(self).with_general(
                GeneralRegs { s6: s6, ..old(self).user_context.general },
            ),
    {
        self.user_context.general.s6 = s6;
    }

    /// Gets the value of s7.
    #[inline(always)]
    pub fn s7(&self) -> (r: usize)
        ensures
            r == self.user_context.general.s7,
    {
        self.user_context.general.s7
    }

    /// Sets the value of s7. Nothing else changes.
    #[inline(always)]
    pub fn set_s7(&mut self, s7: usize)
        ensures
            *final(self) == old(self).with_general(
                GeneralRegs { s7: s7, ..old(self).user_context.general },
            ),
    {
        self.user_context.general.s7 = s7;
    }

    /// Gets the value of s8.
    #[inline(always)]
    pub fn s8(&self) -> (r: usize)
        ensures
            r == self.user_context.general.s8,
    {
        self.user_context.general.s8
    }

    /// Sets the value of s8. Nothing else changes.
    #[inline(always)]
    pub fn set_s8(&mut self, s8: usize)
        ensures
            *final(self) == old(self).with_general(
                GeneralRegs { s8: s8, ..old(self).user_context.general },
            ),
    {
        self.user_context.general.s8 = s8;
    }

    /// Gets the value of s9.
    #[inline(always)]
    pub fn s9(&self) -> (r: usize)
        ensures
            r == self.user_context.general.s9,
    {
        self.user_context.general.s9
    }

    /// Sets the value of s9. Nothing else changes.
    #[inline(always)]
    pub fn set_s9(&mut self, s9: usize)
        ensures
            *final(self) == old(self).with_general(
                GeneralRegs { s9: s9, ..old(self).user_context.general },
            ),
    {
        self.user_context.general.s9 = s9;
    }

    /// Gets the value of s10.
    #[inline(always)]
    pub fn s10(&self) -> (r: usize)
        ensures
            r == self.user_context.general.s10,
    {
        self.user_context.general.s10
    }

    /// Sets the value of s10. Nothing else changes.
    #[inline(always)]
    pub fn set_s10(&mut self, s10: usize)
        ensures
            *final(self) == old(self).with_general(
                GeneralRegs { s10: s10, ..old(self).user_context.general },
            ),
    {
        self.user_context.general.s10 = s10;
    }

    /// Gets the value of s11.
    #[inline(always)]
    pub fn s11(&self) -> (r: usize)
        ensures
            r == self.user_context.general.s11,
    {
        self.user_context.general.s11
    }

    /// Sets the value of s11. Nothing else changes.
    #[inline(always)]
    pub fn set_s11(&mut self, s11: usize)
        ensures
            *final(self) == old(self).with_general(
                GeneralRegs { s11: s11, ..old(self).user_context.general },
            ),
    {
        self.user_context.general.s11 = s11;
    }

    /// Gets the value of t3.
    #[inline(always)]
    pub fn t3(&self) -> (r: usize)
        ensures
            r == self.user_context.general.t3,
    {
        self.user_context.general.t3
    }

    /// Sets the value of t3. Nothing else changes.
    #[inline(always)]
    pub fn set_t3(&mut self, t3: usize)
        ensures
            *final(self) == old(self).with_general(
                GeneralRegs { t3: t3, ..old(self).user_context.general },
            ),
    {
        self.user_context.general.t3 = t3;
    }

    /// Gets the value of t4.
    #[inline(always)]
    pub fn t4(&self) -> (r: usize)
        ensures
            r == self.user_context.general.t4,
    {
        self.user_context.general.t4
    }

    /// Sets the value of t4. Nothing else changes.
    #[inline(always)]
    pub fn set_t4(&mut self, t4: usize)
        ensures
            *final(self) == old(self).with_general(
                GeneralRegs { t4: t4, ..old(self).user_context.general },
            ),
    {
        self.user_context.general.t4 = t4;
    }

    /// Gets the value of t5.
    #[inline(always)]
    pub fn t5(&self) -> (r: usize)
        ensures
            r == self.user_context.general.t5,
    {
        self.user_context.general.t5
    }

    /// Sets the value of t5. Nothing else changes.
    #[inline(always)]
    pub fn set_t5(&mut self, t5: usize)
        ensures
            *final(self) == old(self).with_general(
                GeneralRegs { t5: t5, ..old(self).user_context.general },
            ),
    {
        self.user_context.general.t5 = t5;
    }

    /// Gets the value of t6.
    #[inline(always)]
    pub fn t6(&self) -> (r: usize)
        ensures
            r == self.user_context.general.t6,
    {
        self.user_context.general.t6
    }

    /// Sets the value of t6. Nothing else changes.
    #[inline(always)]
    pub fn set_t6(&mut self, t6: usize)
        ensures
            *final(self) == old(self).with_general(
                GeneralRegs { t6: t6, ..old(self).user_context.general },
            ),
    {
        self.user_context.general.t6 = t6;
    }

}

/// One trap of a run, and what the probe for kernel events answers once
/// the trap is resolved.
#[derive(Debug)]
pub struct TrapEvent {
    /// What the hardware reports of the trap.
    pub trap: TrapRecord,
    /// What the interrupt controller answers to one claim after the other
    /// while a device interrupt is served; 0 says that nothing is pending.
    pub claims: Vec<usize>,
    /// Whether a kernel event is pending after the trap.
    pub kernel_event: bool,
}

/// How a run of the dispatcher ended.
#[derive(Debug)]
pub struct Execution {
    /// Why the dispatcher returned, or `None` where the traps handed in
    /// were all resolved and the program is running on.
    pub reason: Option<ReturnReason>,
    /// How many traps were taken: the number of turns of the loop.
    pub traps: usize,
    /// How often the timer callback is to be run.
    pub timer_ticks: usize,
    /// The device lines whose callbacks are to be run, in order.
    pub dispatched: Vec<usize>,
    /// The steps in which the device lines are served, in order: each line
    /// is dispatched, then completed.
    pub irq_steps: Vec<IrqStep>,
}

/// Whether a run takes trap `j` of `events`: no trap before it ends the run.
pub open spec fn reached(events: Seq<TrapEvent>, j: int) -> bool {
    forall|i: int| 0 <= i < j ==> !stops(#[trigger] events[i])
}

/// Whether the dispatcher returns after `event`: the trap itself ends the
/// run, or it is resolved and a kernel event is pending.
pub open spec fn stops(event: TrapEvent) -> bool {
    reason_of(class_of(event.trap.cause)) is Some || event.kernel_event
}

/// The reason with which the dispatcher returns after `event`, where it
/// returns.
pub open spec fn reason_at(event: TrapEvent) -> ReturnReason {
    match reason_of(class_of(event.trap.cause)) {
        Some(r) => r,
        None => ReturnReason::KernelEvent,
    }
}

/// How many of the first `n` events are timer interrupts.
pub open spec fn timer_ticks_in(events: Seq<TrapEvent>, n: int) -> int
    decreases n,
{
    if n <= 0 {
        0
    } else {
        timer_ticks_in(events, n - 1) + (if class_of(events[n - 1].trap.cause) == TrapClass::Timer {
            1int
        } else {
            0int
        })
    }
}

/// The lines that the device interrupts among the first `n` events serve,
/// in order.
pub open spec fn lines_in(events: Seq<TrapEvent>, n: int) -> Seq<usize>
    decreases n,
{
    if n <= 0 {
        Seq::empty()
    } else {
        lines_in(events, n - 1) + (if class_of(events[n - 1].trap.cause) == TrapClass::External {
            served(events[n - 1].claims@)
        } else {
            Seq::empty()
        })
    }
}

/// What a run over the first `handled` events does: the state `after`
/// with `cpu_after` that it leaves of `before` with `cpu_before`, the
/// reason with which it returns, and what it leaves for its caller.
pub open spec fn ran(
    before: UserContext,
    cpu_before: Cpu,
    events: Seq<TrapEvent>,
    handled: int,
    after: UserContext,
    cpu_after: Cpu,
    reason: Option<ReturnReason>,
    timer_ticks: int,
    lines: Seq<usize>,
    steps: Seq<IrqStep>,
) -> bool {
    &&& 0 <= handled <= events.len()
    &&& steps == protocol(lines)
    &&& forall|j: int| 0 <= j < handled - 1 ==> !stops(#[trigger] events[j])
    &&& match reason {
        Some(r) => handled > 0 && stops(events[handled - 1]) && r == reason_at(events[handled - 1]),
        None => handled > 0 ==> !stops(events[handled - 1]),
    }
    &&& after.user_context.general == before.user_context.general
    &&& after.user_context.sstatus == before.user_context.sstatus
    &&& after.fpu_state == before.fpu_state
    &&& after.trap == before.trap
    &&& after.user_context.sepc == (if reason == Some(ReturnReason::UserSyscall) {
        (before.user_context.sepc + INSTRUCTION_WIDTH) as usize
    } else {
        before.user_context.sepc
    })
    &&& after.cpu_exception_info == (if reason == Some(ReturnReason::UserException) {
        info_of(events[handled - 1].trap)
    } else {
        before.cpu_exception_info
    })
    &&& cpu_after.kernel_interrupted == cpu_before.kernel_interrupted
    &&& cpu_after.tlb.slots@.len() == cpu_before.tlb.slots@.len()
    &&& forall|i: int|
        0 <= i < cpu_before.tlb.slots@.len() ==> #[trigger] cpu_after.tlb.slots@[i] == (if handled
            > 0 && class_of(events[handled - 1].trap.cause) == TrapClass::MemoryFault && slot_maps(
            cpu_before.tlb.slots@[i],
            page_base(events[handled - 1].trap.stval as int),
        ) {
            None
        } else {
            cpu_before.tlb.slots@[i]
        })
    &&& timer_ticks == timer_ticks_in(events, handled)
    &&& lines == lines_in(events, handled)
}

impl UserContext {
    /// Runs the dispatcher over the traps of `events`, in order, as the
    /// hardware would raise them: each trap is resolved, and the run ends
    /// with the first trap that ends it by itself (a system call or a
    /// fault) or after which a kernel event is pending. On return the core
    /// takes interrupts again. Where no trap of `events` ends the run, all
    /// are resolved and the result holds no reason. Traps behind the one
    /// that ends the run are not taken.
    ///
    /// A device interrupt is served before the probe for kernel events is
    /// asked: each line is dispatched and then completed, one line after
    /// the other, as the steps of the result tell.
    #[verifier::rlimit(40)]
    pub fn execute(&mut self, cpu: &mut Cpu, events: &Vec<TrapEvent>) -> (out: Execution)
        requires
            forall|j: int|
                0 <= j < events@.len() && reached(events@, j) ==> class_of(
                    #[trigger] events@[j].trap.cause,
                ) != TrapClass::Fatal,
            forall|j: int|
                0 <= j < events@.len() && reached(events@, j) && class_of(
                    #[trigger] events@[j].trap.cause,
                ) == TrapClass::Syscall ==> old(self).user_context.sepc + INSTRUCTION_WIDTH
                    <= usize::MAX,
        ensures
            ran(
                *old(self),
                *old(cpu),
                events@,
                out.traps as int,
                *final(self),
                *final(cpu),
                out.reason,
                out.timer_ticks as int,
                out.dispatched@,
                out.irq_steps@,
            ),
            out.reason is None ==> out.traps == events@.len(),
            final(cpu).irq_enabled == (out.reason is Some || old(cpu).irq_enabled),
    {
        let mut reason: Option<ReturnReason> = None;
        let mut i: usize = 0;
        let mut timer_ticks: usize = 0;
        let mut dispatched: Vec<usize> = Vec::new();
        let mut irq_steps: Vec<IrqStep> = Vec::new();
        assert(irq_steps@ =~= protocol(dispatched@));
        while i < events.len() && reason.is_none()
            invariant
                cpu.irq_enabled == (reason is Some || old(cpu).irq_enabled),
                timer_ticks <= i <= events@.len(),
                forall|j: int|
                    0 <= j < events@.len() && reached(events@, j) ==> class_of(
                        #[trigger] events@[j].trap.cause,
                    ) != TrapClass::Fatal,
                forall|j: int|
                    0 <= j < events@.len() && reached(events@, j) && class_of(
                        #[trigger] events@[j].trap.cause,
                    ) == TrapClass::Syscall ==> old(self).user_context.sepc + INSTRUCTION_WIDTH
                        <= usize::MAX,
                reason is None ==> reached(events@, i as int),
                ran(
                    *old(self),
                    *old(cpu),
                    events@,
                    i as int,
                    *self,
                    *cpu,
                    reason,
                    timer_ticks as int,
                    dispatched@,
                    irq_steps@,
                ),
            decreases events@.len() - i + (if reason is None { 1int } else { 0int }),
        {
            let event: &TrapEvent = &events[i];
            let ghost cpu_mid = *cpu;
            let ghost lines_mid = dispatched@;
            assert(events@[i as int] == *event);
            let resolution = self.handle_trap(cpu, &event.trap);
            match resolution {
                Resolution::TimerTick => {
                    timer_ticks += 1;
                    assert(lines_mid + Seq::<usize>::empty() == lines_mid);
                },
                Resolution::External => {
                    let served = serve_claims(&event.claims);
                    extend(&mut dispatched, &served.lines);
                    extend(&mut irq_steps, &served.steps);
                    proof {
                        lemma_protocol_concat(lines_mid, served.lines@);
                    }
                },
                _ => {
                    assert(lines_mid + Seq::<usize>::empty() == lines_mid);
                },
            }
            let needs_probe = resolution.return_reason().is_none();
            reason = conclude(cpu, resolution, needs_probe && event.kernel_event);
            proof {
                let n = i as int;
                let class = class_of(event.trap.cause);
                assert forall|k: int| 0 <= k < old(cpu).tlb.slots@.len() implies #[trigger] cpu.tlb.slots@[k]
                    == (if class == TrapClass::MemoryFault && slot_maps(
                    old(cpu).tlb.slots@[k],
                    page_base(event.trap.stval as int),
                ) {
                    None
                } else {
                    old(cpu).tlb.slots@[k]
                }) by {
                    assert(cpu_mid.tlb.slots@[k] == old(cpu).tlb.slots@[k]);
                    if class != TrapClass::MemoryFault {
                        assert(cpu.tlb.slots@ == cpu_mid.tlb.slots@);
                    }
                }
                if reason is None {
                    assert(!stops(events@[n]));
                    assert(reached(events@, n + 1));
                }
            }
            i += 1;
        }
        Execution { reason, traps: i, timer_ticks, dispatched, irq_steps }
    }
}

/// Two system calls in a row move the saved program counter by two
/// instruction widths: the steps add up.
pub proof fn lemma_syscalls_accumulate(ctx: UserContext)
    requires
        ctx.user_context.sepc + 2 * INSTRUCTION_WIDTH <= usize::MAX,
    ensures
        ctx.after_syscall().user_context.sepc == ctx.user_context.sepc + INSTRUCTION_WIDTH,
        ctx.after_syscall().after_syscall().user_context.sepc == ctx.user_context.sepc + 2
            * INSTRUCTION_WIDTH,
        ctx.after_syscall().after_syscall() == ctx.with_sepc(
            (ctx.user_context.sepc + 2 * INSTRUCTION_WIDTH) as usize,
        ),
{
}

/// A run whose first trap is a system call takes that one trap and
/// returns for the system call, with the saved program counter moved by
/// one instruction width and nothing else of the context changed. The
/// probe for kernel events is not asked.
pub proof fn lemma_syscall_ends_the_run(
    before: UserContext,
    cpu_before: Cpu,
    events: Seq<TrapEvent>,
    handled: int,
    after: UserContext,
    cpu_after: Cpu,
    reason: Option<ReturnReason>,
    timer_ticks: int,
    lines: Seq<usize>,
    steps: Seq<IrqStep>,
)
    requires
        ran(
            before,
            cpu_before,
            events,
            handled,
            after,
            cpu_after,
            reason,
            timer_ticks,
            lines,
            steps,
        ),
        reason is None ==> handled == events.len(),
        events.len() >= 1,
        class_of(events[0].trap.cause) == TrapClass::Syscall,
    ensures
        handled == 1,
        reason == Some(ReturnReason::UserSyscall),
        after == before.with_sepc((before.user_context.sepc + INSTRUCTION_WIDTH) as usize),
        timer_ticks == 0,
{
    assert(stops(events[0]));
    if handled >= 2 {
        assert(!stops(events[0]));
    }
    assert(handled == 1);
    assert(timer_ticks_in(events, 0) == 0);
    assert(after.user_context =~= before.with_sepc(
        (before.user_context.sepc + INSTRUCTION_WIDTH) as usize,
    ).user_context);
}

} // verus!
