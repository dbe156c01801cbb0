use hal_core::arch::loongarch::cpu::context::{
    classify, conclude, service_pending, Cpu, CpuExceptionInfo, Exception, FpuState, Interrupt,
    MachineError, Resolution, Trap, TrapClass, TrapEvent, TrapRecord, UserContext,
    INSTRUCTION_WIDTH,
};
use hal_core::irq::IrqStep;
use hal_core::arch::loongarch::kernel::irq_ctrl::IrqCtrl;
use hal_core::arch::loongarch::trap::{is_kernel_interrupted, GeneralRegs, TrapFrame};
use hal_core::mm::{Tlb, TlbEntry};
use hal_core::user::ReturnReason;

fn cpu() -> Cpu {
    Cpu { tlb: Tlb::new(4), irq_ctrl: IrqCtrl::create().unwrap(), irq_enabled: false }
}

fn event(cause: Trap, badv: usize, kernel_event: bool) -> TrapEvent {
    TrapEvent { trap: TrapRecord { cause, badv, badi: 0 }, kernel_event }
}

#[test]
fn scenario_syscall_moves_the_instruction_pointer() {
    let mut ctx = UserContext::default();
    ctx.set_instruction_pointer(0x1000);
    ctx.set_stack_pointer(0x7fff_f000);
    let mut cpu = cpu();
    let out = ctx.execute(&mut cpu, &vec![event(Trap::Exception(Exception::Syscall), 0, false)]);
    assert_eq!(out.reason, Some(ReturnReason::UserSyscall));
    assert_eq!(out.traps, 1);
    assert_eq!(ctx.instruction_pointer(), 0x1004);
    assert_eq!(ctx.stack_pointer(), 0x7fff_f000);
    assert!(cpu.irq_enabled);
}

#[test]
fn two_syscalls_move_it_twice() {
    let mut ctx = UserContext::default();
    ctx.set_instruction_pointer(0x1000);
    let mut cpu = cpu();
    let events = vec![event(Trap::Exception(Exception::Syscall), 0, false)];
    assert_eq!(ctx.execute(&mut cpu, &events).reason, Some(ReturnReason::UserSyscall));
    assert_eq!(ctx.instruction_pointer(), 0x1004);
    assert_eq!(ctx.execute(&mut cpu, &events).reason, Some(ReturnReason::UserSyscall));
    assert_eq!(ctx.instruction_pointer(), 0x1008);
    assert_eq!(INSTRUCTION_WIDTH, 4);
}

#[test]
fn a_run_stops_at_the_first_syscall() {
    let mut ctx = UserContext::default();
    let mut cpu = cpu();
    let events = vec![
        event(Trap::Exception(Exception::Syscall), 0, false),
        event(Trap::Exception(Exception::Syscall), 0, false),
    ];
    let out = ctx.execute(&mut cpu, &events);
    assert_eq!(out.traps, 1);
    assert_eq!(ctx.instruction_pointer(), 4);
}

#[test]
fn fpu_fault_is_resolved_inside() {
    let mut ctx = UserContext::default();
    let mut cpu = cpu();
    let fpu = Trap::Exception(Exception::FloatingPointUnavailable);
    let events = vec![
        event(fpu, 0, false),
        event(fpu, 0, false),
        event(fpu, 0, false),
        event(Trap::Exception(Exception::Syscall), 0, false),
    ];
    let out = ctx.execute(&mut cpu, &events);
    assert_eq!(out.reason, Some(ReturnReason::UserSyscall));
    assert_eq!(out.traps, 4);
    assert_eq!(ctx.user_context.euen, 1);
    assert_eq!(*ctx.trap_information(), CpuExceptionInfo::default());
}

#[test]
fn fpu_fault_alone_returns_nothing() {
    let mut ctx = UserContext::default();
    let mut cpu = cpu();
    let fpu = Trap::Exception(Exception::FloatingPointUnavailable);
    let out = ctx.execute(&mut cpu, &vec![event(fpu, 0, false), event(fpu, 0, false)]);
    assert_eq!(out.reason, None);
    assert_eq!(out.traps, 2);
    assert_eq!(ctx.user_context.euen, 1);
    assert!(!cpu.irq_enabled);
    assert_eq!(ctx.instruction_pointer(), 0);
}

#[test]
fn kernel_event_after_a_resolved_trap() {
    let mut ctx = UserContext::default();
    let mut cpu = cpu();
    let fpu = Trap::Exception(Exception::FloatingPointUnavailable);
    let events = vec![event(fpu, 0, false), event(fpu, 0, true), event(fpu, 0, false)];
    let out = ctx.execute(&mut cpu, &events);
    assert_eq!(out.reason, Some(ReturnReason::KernelEvent));
    assert_eq!(out.traps, 2);
    assert!(cpu.irq_enabled);
}

#[test]
fn kernel_event_is_not_asked_after_a_syscall() {
    let mut ctx = UserContext::default();
    let mut cpu = cpu();
    let out = ctx.execute(&mut cpu, &vec![event(Trap::Exception(Exception::Syscall), 0, true)]);
    assert_eq!(out.reason, Some(ReturnReason::UserSyscall));
}

#[test]
fn page_fault_flushes_and_records() {
    let mut ctx = UserContext::default();
    ctx.set_instruction_pointer(0x4000);
    let mut cpu = cpu();
    cpu.tlb.fill(0, TlbEntry { vaddr: 0x7000, global: false });
    cpu.tlb.fill(1, TlbEntry { vaddr: 0x8000, global: true });
    let out = ctx.execute(
        &mut cpu,
        &vec![event(Trap::Exception(Exception::StorePageFault), 0x8123, false)],
    );
    assert_eq!(out.reason, Some(ReturnReason::UserException));
    assert_eq!(
        *ctx.trap_information(),
        CpuExceptionInfo {
            code: Exception::StorePageFault,
            page_fault_addr: 0x8123,
            error_code: 0
        }
    );
    assert_eq!(ctx.trap_information().cpu_exception(), Exception::StorePageFault);
    assert!(!cpu.tlb.lookup(0x8000));
    assert!(cpu.tlb.lookup(0x7000));
    assert_eq!(ctx.instruction_pointer(), 0x4000);
}

#[test]
fn every_memory_fault_is_a_user_exception() {
    for e in [
        Exception::LoadPageFault,
        Exception::StorePageFault,
        Exception::FetchPageFault,
        Exception::PageModifyFault,
        Exception::PageNonReadableFault,
        Exception::PageNonExecutableFault,
        Exception::PagePrivilegeIllegal,
    ] {
        assert_eq!(classify(Trap::Exception(e)), TrapClass::MemoryFault);
        let mut ctx = UserContext::default();
        let mut cpu = cpu();
        let r = ctx.handle_trap(&mut cpu, &TrapRecord { cause: Trap::Exception(e), badv: 0x10, badi: 0 });
        assert!(matches!(r, Resolution::PageFault));
        assert_eq!(r.return_reason(), Some(ReturnReason::UserException));
        assert_eq!(ctx.trap_information().code, e);
        assert_eq!(ctx.trap_information().page_fault_addr, 0x10);
    }
}

#[test]
fn other_faults_record_the_code_alone() {
    for e in [
        Exception::FetchInstructionAddressError,
        Exception::MemoryAccessAddressError,
        Exception::AddressNotAligned,
        Exception::BoundsCheckFault,
        Exception::Breakpoint,
        Exception::InstructionNotExist,
        Exception::InstructionPrivilegeIllegal,
    ] {
        assert_eq!(classify(Trap::Exception(e)), TrapClass::Fault);
        let mut ctx = UserContext::default();
        let mut cpu = cpu();
        cpu.tlb.fill(0, TlbEntry { vaddr: 0x5000, global: false });
        let r = ctx.handle_trap(&mut cpu, &TrapRecord { cause: Trap::Exception(e), badv: 0x5000, badi: 7 });
        assert!(matches!(r, Resolution::Fault));
        assert_eq!(
            *ctx.trap_information(),
            CpuExceptionInfo { code: e, page_fault_addr: 0, error_code: 0 }
        );
        assert!(cpu.tlb.lookup(0x5000));
    }
}

#[test]
fn fatal_causes_are_told_apart() {
    assert_eq!(classify(Trap::Unknown), TrapClass::Fatal);
    assert_eq!(classify(Trap::MachineError(MachineError::CacheCheckError)), TrapClass::Fatal);
    assert_eq!(classify(Trap::Exception(Exception::TLBRFill)), TrapClass::Fatal);
    for i in [Interrupt::SWI0, Interrupt::SWI1, Interrupt::PMI, Interrupt::IPI] {
        assert_eq!(classify(Trap::Interrupt(i)), TrapClass::Fatal);
    }
    assert_eq!(classify(Trap::Interrupt(Interrupt::Timer)), TrapClass::Timer);
    for i in [
        Interrupt::HWI0,
        Interrupt::HWI1,
        Interrupt::HWI2,
        Interrupt::HWI3,
        Interrupt::HWI4,
        Interrupt::HWI5,
        Interrupt::HWI6,
        Interrupt::HWI7,
    ] {
        assert_eq!(classify(Trap::Interrupt(i)), TrapClass::External);
    }
    assert_eq!(classify(Trap::Exception(Exception::Syscall)), TrapClass::Syscall);
    assert_eq!(
        classify(Trap::Exception(Exception::FloatingPointUnavailable)),
        TrapClass::FpuUnavailable
    );
}

#[test]
fn timer_ticks_are_counted() {
    let mut ctx = UserContext::default();
    let mut cpu = cpu();
    let timer = Trap::Interrupt(Interrupt::Timer);
    let events = vec![
        event(timer, 0, false),
        event(Trap::Exception(Exception::FloatingPointUnavailable), 0, false),
        event(timer, 0, true),
        event(timer, 0, false),
    ];
    let out = ctx.execute(&mut cpu, &events);
    assert_eq!(out.reason, Some(ReturnReason::KernelEvent));
    assert_eq!(out.traps, 3);
    assert_eq!(out.timer_ticks, 2);
    assert!(out.dispatched.is_empty());
}

#[test]
fn device_interrupt_drains_the_controller_highest_first() {
    let mut ctx = UserContext::default();
    let mut cpu = cpu();
    for no in [2usize, 37, 63, 130] {
        cpu.irq_ctrl.eiointc.enable_irq(no);
        cpu.irq_ctrl.eiointc.raise_irq(no);
    }
    cpu.irq_ctrl.eiointc.raise_irq(200);
    let hwi = Trap::Interrupt(Interrupt::HWI0);
    let out = ctx.execute(&mut cpu, &vec![event(hwi, 0, false), event(hwi, 0, false)]);
    assert_eq!(out.reason, None);
    assert_eq!(out.traps, 2);
    assert_eq!(out.dispatched, vec![130, 63, 37, 2]);
    assert_eq!(
        out.irq_steps,
        vec![
            IrqStep::Dispatch(130),
            IrqStep::Complete(130),
            IrqStep::Dispatch(63),
            IrqStep::Complete(63),
            IrqStep::Dispatch(37),
            IrqStep::Complete(37),
            IrqStep::Dispatch(2),
            IrqStep::Complete(2),
        ]
    );
    assert_eq!(cpu.irq_ctrl.claim_irq(), None);
    // The line that is not enabled stays pending.
    assert_eq!(cpu.irq_ctrl.eiointc.status, [0, 0, 0, 1 << 8]);
    assert_eq!(ctx, UserContext::default());
}

#[test]
fn empty_trace_returns_nothing() {
    let mut ctx = UserContext::default();
    let mut cpu = cpu();
    cpu.irq_enabled = true;
    let out = ctx.execute(&mut cpu, &Vec::new());
    assert_eq!(out.reason, None);
    assert_eq!(out.traps, 0);
    assert!(cpu.irq_enabled);
}

#[test]
fn trap_frame_is_a_copy_of_the_registers() {
    let mut ctx = UserContext::default();
    ctx.set_a0(1);
    ctx.set_sp(2);
    ctx.set_instruction_pointer(3);
    ctx.enable_fpu();
    ctx.user_context.prmd = 7;
    let frame = ctx.as_trap_frame();
    assert_eq!(
        frame,
        TrapFrame { general: GeneralRegs { a0: 1, sp: 2, ..GeneralRegs::default() }, prmd: 7, era: 3, euen: 1 }
    );
    assert_eq!(*ctx.general_regs(), frame.general);
}

#[test]
fn register_accessors_touch_one_register() {
    let mut ctx = UserContext::default();
    ctx.set_ra(1);
    ctx.set_tp(2);
    ctx.set_sp(3);
    ctx.set_a0(10);
    ctx.set_a1(11);
    ctx.set_a2(12);
    ctx.set_a3(13);
    ctx.set_a4(14);
    ctx.set_a5(15);
    ctx.set_a6(16);
    ctx.set_a7(17);
    ctx.set_t0(20);
    ctx.set_t1(21);
    ctx.set_t2(22);
    ctx.set_t3(23);
    ctx.set_t4(24);
    ctx.set_t5(25);
    ctx.set_t6(26);
    ctx.set_t7(27);
    ctx.set_t8(28);
    ctx.set_r21(29);
    ctx.set_fp(30);
    ctx.set_s0(40);
    ctx.set_s1(41);
    ctx.set_s2(42);
    ctx.set_s3(43);
    ctx.set_s4(44);
    ctx.set_s5(45);
    ctx.set_s6(46);
    ctx.set_s7(47);
    ctx.set_s8(48);
    let got = [
        ctx.ra(), ctx.tp(), ctx.sp(), ctx.a0(), ctx.a1(), ctx.a2(), ctx.a3(), ctx.a4(), ctx.a5(),
        ctx.a6(), ctx.a7(), ctx.t0(), ctx.t1(), ctx.t2(), ctx.t3(), ctx.t4(), ctx.t5(), ctx.t6(),
        ctx.t7(), ctx.t8(), ctx.r21(), ctx.fp(), ctx.s0(), ctx.s1(), ctx.s2(), ctx.s3(), ctx.s4(),
        ctx.s5(), ctx.s6(), ctx.s7(), ctx.s8(),
    ];
    assert_eq!(
        got,
        [1, 2, 3, 10, 11, 12, 13, 14, 15, 16, 17, 20, 21, 22, 23, 24, 25, 26, 27, 28, 29, 30, 40,
         41, 42, 43, 44, 45, 46, 47, 48]
    );
    assert_eq!(ctx.general_regs().zero, 0);
    assert_eq!(ctx.general_regs().u0, 29);
    assert_eq!(ctx.instruction_pointer(), 0);
}

#[test]
fn syscall_registers() {
    let mut ctx = UserContext::default();
    ctx.set_a7(93);
    for (i, v) in [5usize, 6, 7, 8, 9, 10].iter().enumerate() {
        match i {
            0 => ctx.set_a0(*v),
            1 => ctx.set_a1(*v),
            2 => ctx.set_a2(*v),
            3 => ctx.set_a3(*v),
            4 => ctx.set_a4(*v),
            _ => ctx.set_a5(*v),
        }
    }
    assert_eq!(ctx.user_context.get_syscall_num(), 93);
    assert_eq!(ctx.user_context.get_syscall_args(), [5, 6, 7, 8, 9, 10]);
    assert_eq!(ctx.user_context.get_syscall_ret(), 5);
    ctx.user_context.set_syscall_ret(77);
    assert_eq!(ctx.a0(), 77);
    ctx.user_context.set_tls(0x9000);
    assert_eq!(ctx.tls_pointer(), 0x9000);
    ctx.set_tls_pointer(0xa000);
    assert_eq!(ctx.tp(), 0xa000);
    ctx.user_context.set_sp(0x10);
    assert_eq!(ctx.user_context.get_sp(), 0x10);
    ctx.user_context.set_ip(0x20);
    assert_eq!(ctx.user_context.get_ip(), 0x20);
    ctx.activate_tls_pointer();
    ctx.general_regs_mut().ra = 4;
    assert_eq!(ctx.ra(), 4);
}

#[test]
fn fpu_state_has_nothing_to_save() {
    let mut ctx = UserContext::default();
    ctx.fpu_state().save();
    ctx.fpu_state().restore();
    *ctx.fpu_state_mut() = FpuState::default();
    assert_eq!(*ctx.fpu_state(), FpuState);
    assert!(!is_kernel_interrupted());
}

#[test]
fn a_device_interrupt_is_left_for_the_caller_to_serve() {
    let mut ctx = UserContext::default();
    let mut cpu = cpu();
    cpu.irq_ctrl.enable_irq(9);
    cpu.irq_ctrl.enable_irq(4);
    cpu.irq_ctrl.eiointc.raise_irq(9);
    cpu.irq_ctrl.eiointc.raise_irq(4);
    let status = cpu.irq_ctrl.eiointc.status;
    let r = ctx.handle_trap(
        &mut cpu,
        &TrapRecord { cause: Trap::Interrupt(Interrupt::HWI3), badv: 0, badi: 0 },
    );
    assert_eq!(r, Resolution::External);
    assert_eq!(r.return_reason(), None);
    assert_eq!(cpu.irq_ctrl.eiointc.status, status);
    // The caller claims, dispatches and only then completes.
    let mut order = Vec::new();
    while let Some(line) = cpu.irq_ctrl.claim_irq() {
        order.push((line, cpu.irq_ctrl.eiointc.status[0]));
        cpu.irq_ctrl.complete_irq(line);
    }
    assert_eq!(order, vec![(9, (1 << 9) | (1 << 4)), (4, 1 << 4)]);
    assert_eq!(cpu.irq_ctrl.eiointc.status, [0; 4]);
}

#[test]
fn serving_logs_dispatch_before_completion() {
    let mut cpu = cpu();
    cpu.irq_ctrl.enable_irq(1);
    cpu.irq_ctrl.enable_irq(0);
    cpu.irq_ctrl.eiointc.raise_irq(1);
    cpu.irq_ctrl.eiointc.raise_irq(0);
    let served = service_pending(&mut cpu.irq_ctrl);
    assert_eq!(served.lines, vec![1, 0]);
    assert_eq!(
        served.steps,
        vec![
            IrqStep::Dispatch(1),
            IrqStep::Complete(1),
            IrqStep::Dispatch(0),
            IrqStep::Complete(0)
        ]
    );
    let again = service_pending(&mut cpu.irq_ctrl);
    assert!(again.lines.is_empty() && again.steps.is_empty());
}

#[test]
fn conclude_decides_the_end_of_the_run() {
    let mut c = cpu();
    assert_eq!(conclude(&mut c, Resolution::FpuEnabled, false), None);
    assert!(!c.irq_enabled);
    assert_eq!(conclude(&mut c, Resolution::TimerTick, true), Some(ReturnReason::KernelEvent));
    assert!(c.irq_enabled);
    let mut c = cpu();
    assert_eq!(conclude(&mut c, Resolution::External, true), Some(ReturnReason::KernelEvent));
    assert_eq!(conclude(&mut c, Resolution::Syscall, false), Some(ReturnReason::UserSyscall));
    assert_eq!(conclude(&mut c, Resolution::Syscall, true), Some(ReturnReason::UserSyscall));
    assert_eq!(conclude(&mut c, Resolution::PageFault, true), Some(ReturnReason::UserException));
    assert_eq!(conclude(&mut c, Resolution::Fault, false), Some(ReturnReason::UserException));
    assert!(c.irq_enabled);
}

#[test]
fn traps_behind_the_end_of_the_run_are_not_taken() {
    let mut ctx = UserContext::default();
    let mut cpu = cpu();
    let events = vec![
        event(Trap::Exception(Exception::Syscall), 0, false),
        event(Trap::Unknown, 0, false),
        event(Trap::MachineError(MachineError::CacheCheckError), 0, false),
    ];
    let out = ctx.execute(&mut cpu, &events);
    assert_eq!(out.reason, Some(ReturnReason::UserSyscall));
    assert_eq!(out.traps, 1);
}
