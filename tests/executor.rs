use libafl::executor::{
    plan_fault, CrashContext, ExitKind, Fault, InMemoryExecutor, Termination, CRASH_EXIT_STATUS,
};
use libafl::inputs::BytesInput;

fn test_harness_fn_nop(_context: &CrashContext, buf: &[u8]) -> ExitKind {
    println!("Fake exec with buf of len {}", buf.len());
    ExitKind::Normal
}

#[test]
fn test_inmem_exec() {
    let mut in_mem_executor = InMemoryExecutor::new("main", test_harness_fn_nop, (), false);
    let input = BytesInput::new(vec![0]);
    assert!(in_mem_executor.run_target(&input).is_ok());
}

#[test]
fn run_returns_harness_kind_and_clears_context() {
    let mut ex = InMemoryExecutor::new("ex", |_c: &CrashContext, b: &[u8]| if b.len() > 2 { ExitKind::Crash } else { ExitKind::Normal }, 7u32, true);
    assert_eq!(ex.name(), "ex");
    assert_eq!(ex.run_target(&BytesInput::new(vec![1, 2, 3])), Ok(ExitKind::Crash));
    assert_eq!(ex.run_target(&BytesInput::new(vec![1])), Ok(ExitKind::Normal));
    assert!(!ex.context().is_running());
    *ex.observers_mut() += 1;
    assert_eq!(*ex.observers(), 8);
}

#[test]
fn crash_while_running_notifies_once_and_exits_139() {
    let mut ctx = CrashContext::new(true);
    ctx.begin_run(&[9, 8, 7]);
    let plan = plan_fault(&ctx, Fault::Fatal { signal: 11 });
    let n = plan.notify.expect("a crash notification");
    assert_eq!(n.kind, ExitKind::Crash);
    assert_eq!(n.input, vec![9, 8, 7]);
    assert_eq!(plan.preserve, Some(ExitKind::Crash));
    assert!(!plan.report_out_of_band);
    assert_eq!(plan.termination, Termination::Exit { status: 139 });
    assert_eq!(CRASH_EXIT_STATUS, 139);
}

#[test]
fn crash_without_callback_preserves_nothing() {
    let mut ctx = CrashContext::new(false);
    ctx.begin_run(&[1]);
    let plan = plan_fault(&ctx, Fault::Fatal { signal: 6 });
    assert!(plan.notify.is_some());
    assert_eq!(plan.preserve, None);
    assert_eq!(plan.termination, Termination::Exit { status: 139 });
}

#[test]
fn crash_while_idle_is_out_of_band_and_still_exits() {
    let ctx = CrashContext::new(true);
    let plan = plan_fault(&ctx, Fault::Fatal { signal: 11 });
    assert!(plan.report_out_of_band);
    assert!(plan.notify.is_none());
    assert_eq!(plan.preserve, None);
    assert_eq!(plan.termination, Termination::Exit { status: 139 });
}

#[test]
fn timeout_while_idle_is_a_no_op() {
    let mut ctx = CrashContext::new(true);
    ctx.begin_run(&[1, 2]);
    ctx.end_run();
    let plan = plan_fault(&ctx, Fault::Timeout);
    assert!(plan.notify.is_none());
    assert_eq!(plan.preserve, None);
    assert!(!plan.report_out_of_band);
    assert_eq!(plan.termination, Termination::Continue);
}

#[test]
fn timeout_while_running_notifies_and_aborts() {
    let mut ctx = CrashContext::new(true);
    ctx.begin_run(&[5]);
    assert!(ctx.is_running());
    assert_eq!(ctx.current_input(), Some(&vec![5u8]));
    let plan = plan_fault(&ctx, Fault::Timeout);
    let n = plan.notify.expect("a timeout notification");
    assert_eq!(n.kind, ExitKind::Timeout);
    assert_eq!(n.input, vec![5]);
    assert_eq!(plan.preserve, Some(ExitKind::Timeout));
    assert_eq!(plan.termination, Termination::Abort);
}

#[test]
fn harness_sees_its_input_recorded() {
    let mut ex = InMemoryExecutor::new(
        "seen",
        |c: &CrashContext, b: &[u8]| {
            if c.is_running() && c.current_input() == Some(&b.to_vec()) {
                ExitKind::Normal
            } else {
                ExitKind::Crash
            }
        },
        (),
        true,
    );
    assert_eq!(ex.run_target(&BytesInput::new(vec![4, 5, 6])), Ok(ExitKind::Normal));
    assert!(!ex.context().is_running());
}
