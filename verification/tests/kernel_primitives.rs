use windows_kernel::irp::{
    completion_control, IoGetCurrentIrpStackLocation, IoGetNextIrpStackLocation,
    IoSetCompletionRoutine, Irp,
};
use windows_kernel::mdl::LockedMdl;
use windows_kernel::socket::{Completion, KernelSocketAsyncContext};
use windows_kernel::status::{
    ErrorLike, STATUS_INSUFFICIENT_RESOURCES, STATUS_MORE_PROCESSING_REQUIRED, STATUS_PENDING,
    STATUS_SUCCESS, STATUS_UNSUCCESSFUL,
};
use windows_kernel::winsock::{KernelSocketState, StateAction, StatePhase};

#[test]
fn success_status_reads_as_success() {
    assert_eq!(STATUS_SUCCESS.as_either(), Ok(()));
}

#[test]
fn failure_status_reads_as_itself() {
    assert_eq!(STATUS_UNSUCCESSFUL.as_either(), Err(STATUS_UNSUCCESSFUL));
    assert_eq!(STATUS_PENDING.as_either(), Err(STATUS_PENDING));
    assert_eq!(STATUS_UNSUCCESSFUL as u32, 0xC000_0001);
    assert_eq!(STATUS_INSUFFICIENT_RESOURCES as u32, 0xC000_009A);
}

#[test]
fn control_byte_for_each_flag() {
    assert_eq!(completion_control(true, true, true), 0xE0);
    assert_eq!(completion_control(true, false, false), 0x40);
    assert_eq!(completion_control(false, true, false), 0x80);
    assert_eq!(completion_control(false, false, true), 0x20);
    assert_eq!(completion_control(false, true, true), 0xA0);
    assert_eq!(completion_control(false, false, false), 0);
}

#[test]
fn new_packet_points_past_its_last_location() {
    let irp = Irp::new(3);
    assert_eq!(irp.stack.len(), 3);
    assert_eq!(IoGetCurrentIrpStackLocation(&irp), 3);
    assert_eq!(IoGetNextIrpStackLocation(&irp), 2);
    assert_eq!(irp.io_status.status, STATUS_SUCCESS);
    assert_eq!(irp.io_status.information, 0);
}

#[test]
fn completion_routine_goes_to_next_location() {
    let mut irp = Irp::new(2);
    IoSetCompletionRoutine(&mut irp, Some(0x77), 0x88, true, false, true);
    assert_eq!(irp.stack[1].completion_routine, Some(0x77));
    assert_eq!(irp.stack[1].context, 0x88);
    assert_eq!(irp.stack[1].control, 0x60);
    assert_eq!(irp.stack[0].completion_routine, None);
    assert_eq!(irp.stack[0].control, 0);
    assert_eq!(irp.current_location, 2);
}

#[test]
fn reused_packet_is_emptied() {
    let mut irp = Irp::new(1);
    IoSetCompletionRoutine(&mut irp, Some(1), 2, true, true, true);
    irp.io_status.information = 9;
    irp.reuse(STATUS_UNSUCCESSFUL);
    assert_eq!(irp.stack[0].completion_routine, None);
    assert_eq!(irp.stack[0].control, 0);
    assert_eq!(irp.current_location, 1);
    assert_eq!(irp.io_status.status, STATUS_UNSUCCESSFUL);
    assert_eq!(irp.io_status.information, 0);
}

#[test]
fn locked_mdl_on_success() {
    let locked = LockedMdl::new(0x5000, STATUS_SUCCESS).ok().unwrap();
    assert_eq!(locked.mdl(), 0x5000);
}

#[test]
fn locked_mdl_failure_keeps_status() {
    assert!(matches!(LockedMdl::new(0x5000, -44), Err(-44)));
}

#[test]
fn async_context_initialize_and_reset() {
    let mut ctx = KernelSocketAsyncContext::new(10, 20);
    assert_eq!(ctx.initialize(0), Err(STATUS_INSUFFICIENT_RESOURCES));
    assert!(ctx.irp.is_none());
    assert_eq!(ctx.initialize(0x900), Ok(()));
    ctx.reset();
    let irp = ctx.irp.as_ref().unwrap();
    assert_eq!(irp.stack[0].completion_routine, Some(10));
    assert_eq!(irp.stack[0].context, 20);
    assert_eq!(irp.io_status.status, STATUS_UNSUCCESSFUL);
    ctx.free();
    assert!(ctx.irp.is_none());
}

#[test]
fn completion_of_returned_status() {
    assert!(matches!(KernelSocketAsyncContext::wait_for_completion(STATUS_PENDING), Completion::Pending));
    assert!(matches!(
        KernelSocketAsyncContext::wait_for_completion(STATUS_SUCCESS),
        Completion::Finished(Ok(()))
    ));
    assert!(matches!(KernelSocketAsyncContext::wait_for_completion(-8), Completion::Finished(Err(-8))));
    assert_eq!(KernelSocketAsyncContext::completion_routine_status(), STATUS_MORE_PROCESSING_REQUIRED);
}

#[test]
fn registration_succeeds_after_capture() {
    let (mut state, a) = KernelSocketState::new();
    assert!(matches!(a, StateAction::Register));
    assert!(matches!(state.step(STATUS_SUCCESS), StateAction::CaptureProviderNpi { wait_timeout: 0 }));
    assert!(matches!(state.step(STATUS_SUCCESS), StateAction::Finish(Ok(()))));
    assert!(state.is_ready());
}

#[test]
fn registration_failure_skips_capture() {
    let (mut state, _) = KernelSocketState::new();
    assert!(matches!(state.step(-7), StateAction::Finish(Err(-7))));
    assert!(!state.is_ready());
    assert!(matches!(state.step(STATUS_SUCCESS), StateAction::Finish(Err(-7))));
}

#[test]
fn capture_failure_is_reported() {
    let (mut state, _) = KernelSocketState::new();
    state.step(STATUS_SUCCESS);
    assert!(matches!(state.step(-6), StateAction::Finish(Err(-6))));
    assert!(matches!(state.phase, StatePhase::Finished(Err(-6))));
}

#[test]
fn release_comes_before_deregistration() {
    let (state, _) = KernelSocketState::new();
    let actions = state.drop_actions();
    assert_eq!(actions.len(), 2);
    assert!(matches!(actions[0], StateAction::ReleaseProviderNpi));
    assert!(matches!(actions[1], StateAction::Deregister));
}
