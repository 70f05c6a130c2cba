use windows_kernel::irp::IoStatusBlock;
use windows_kernel::socket::{
    ConnectionDispatch, KernelSocket, KernelSocketTransfertType, SockAddrIn, SocketAction,
    SocketEvent, SocketTask, TaskPhase, WskRequest, AF_INET, IO_WRITE_ACCESS, IPPROTO_TCP,
    KERNEL_MODE, SOCK_STREAM, WSK_FLAG_CONNECTION_SOCKET,
};
use windows_kernel::status::{
    STATUS_END_OF_FILE, STATUS_INSUFFICIENT_RESOURCES, STATUS_NOT_FOUND, STATUS_PENDING,
    STATUS_SUCCESS, STATUS_UNSUCCESSFUL,
};

const ROUTINE: usize = 0x1000;
const EVENT: usize = 0x2000;
const CLIENT: usize = 0x5000;

fn remote() -> SockAddrIn {
    SockAddrIn { family: AF_INET, port: 80, addr: 0x0102_0304 }
}

fn io(status: i32, information: usize) -> IoStatusBlock {
    IoStatusBlock { status, information }
}

fn full_dispatch() -> ConnectionDispatch {
    ConnectionDispatch {
        has_bind: true,
        has_connect: true,
        has_send: true,
        has_receive: true,
        has_close_socket: true,
    }
}

/// Runs the creation of a socket to its end, answering the socket call at once.
fn created_socket(handle: usize, dispatch: Option<ConnectionDispatch>) -> KernelSocket {
    let (mut socket, mut task, action) = KernelSocket::new(ROUTINE, EVENT, CLIENT, AF_INET, SOCK_STREAM, IPPROTO_TCP, true);
    assert!(matches!(action, SocketAction::InitializeEvent));
    let a = task.step(&mut socket, SocketEvent::Performed);
    assert!(matches!(a, SocketAction::AllocateIrp { stack_size: 1 }));
    let a = task.step(&mut socket, SocketEvent::Allocated(0x3000));
    assert!(matches!(a, SocketAction::SetCompletionRoutine));
    let a = task.step(&mut socket, SocketEvent::Performed);
    assert!(matches!(
        a,
        SocketAction::Issue(WskRequest::Socket {
            client: CLIENT,
            address_family: AF_INET,
            socket_type: SOCK_STREAM,
            protocol: IPPROTO_TCP,
            flags: WSK_FLAG_CONNECTION_SOCKET,
        })
    ));
    let a = task.step(&mut socket, SocketEvent::Completed(STATUS_SUCCESS, io(STATUS_SUCCESS, handle)));
    assert!(matches!(a, SocketAction::ReadConnectionDispatch));
    let a = task.step(&mut socket, SocketEvent::Dispatch(dispatch));
    assert!(matches!(a, SocketAction::Finish(Ok(h)) if h == handle));
    socket
}

#[test]
fn create_socket_succeeds_with_handle_and_dispatch() {
    let socket = created_socket(0xABC0, Some(full_dispatch()));
    assert_eq!(socket.wsk_socket, 0xABC0);
    assert!(socket.wsk_connection_dispatch.is_some());
    let irp = socket.async_context.irp.as_ref().unwrap();
    assert_eq!(irp.stack.len(), 1);
    assert_eq!(irp.current_location, 1);
    assert_eq!(irp.stack[0].completion_routine, Some(ROUTINE));
    assert_eq!(irp.stack[0].context, EVENT);
    assert_eq!(irp.stack[0].control, 0xE0);
    assert_eq!(irp.io_status.information, 0xABC0);
}

#[test]
fn create_socket_waits_for_pending_call() {
    let (mut socket, mut task, _) = KernelSocket::new(ROUTINE, EVENT, CLIENT, AF_INET, SOCK_STREAM, IPPROTO_TCP, true);
    task.step(&mut socket, SocketEvent::Performed);
    task.step(&mut socket, SocketEvent::Allocated(0x3000));
    task.step(&mut socket, SocketEvent::Performed);
    let a = task.step(&mut socket, SocketEvent::Completed(STATUS_PENDING, io(0, 0)));
    assert!(matches!(a, SocketAction::Wait));
    let a = task.step(&mut socket, SocketEvent::Completed(STATUS_SUCCESS, io(STATUS_SUCCESS, 77)));
    assert!(matches!(a, SocketAction::ReadConnectionDispatch));
    let a = task.step(&mut socket, SocketEvent::Dispatch(None));
    assert!(matches!(a, SocketAction::Finish(Ok(77))));
}

#[test]
fn create_socket_pending_call_failing_reports_its_status() {
    let (mut socket, mut task, _) = KernelSocket::new(ROUTINE, EVENT, CLIENT, AF_INET, SOCK_STREAM, IPPROTO_TCP, true);
    task.step(&mut socket, SocketEvent::Performed);
    task.step(&mut socket, SocketEvent::Allocated(0x3000));
    task.step(&mut socket, SocketEvent::Performed);
    task.step(&mut socket, SocketEvent::Completed(STATUS_PENDING, io(0, 0)));
    let a = task.step(&mut socket, SocketEvent::Completed(STATUS_SUCCESS, io(-5, 0)));
    assert!(matches!(a, SocketAction::Finish(Err(-5))));
    assert_eq!(socket.wsk_socket, 0);
}

#[test]
fn create_socket_failed_wait_reports_wait_status() {
    let (mut socket, mut task, _) = KernelSocket::new(ROUTINE, EVENT, CLIENT, AF_INET, SOCK_STREAM, IPPROTO_TCP, true);
    task.step(&mut socket, SocketEvent::Performed);
    task.step(&mut socket, SocketEvent::Allocated(0x3000));
    task.step(&mut socket, SocketEvent::Performed);
    task.step(&mut socket, SocketEvent::Completed(STATUS_PENDING, io(0, 0)));
    let a = task.step(&mut socket, SocketEvent::Completed(-9, io(STATUS_SUCCESS, 0)));
    assert!(matches!(a, SocketAction::Finish(Err(-9))));
}

#[test]
fn create_socket_without_packet_is_out_of_resources() {
    let (mut socket, mut task, _) = KernelSocket::new(ROUTINE, EVENT, CLIENT, AF_INET, SOCK_STREAM, IPPROTO_TCP, true);
    task.step(&mut socket, SocketEvent::Performed);
    let a = task.step(&mut socket, SocketEvent::Allocated(0));
    assert!(matches!(a, SocketAction::Finish(Err(e)) if e == STATUS_INSUFFICIENT_RESOURCES));
    assert!(socket.async_context.irp.is_none());
}

#[test]
fn create_socket_without_provider_call_is_not_found() {
    let (mut socket, mut task, _) = KernelSocket::new(ROUTINE, EVENT, CLIENT, AF_INET, SOCK_STREAM, IPPROTO_TCP, false);
    task.step(&mut socket, SocketEvent::Performed);
    task.step(&mut socket, SocketEvent::Allocated(0x3000));
    let a = task.step(&mut socket, SocketEvent::Performed);
    assert!(matches!(a, SocketAction::Finish(Err(e)) if e == STATUS_NOT_FOUND));
}

#[test]
fn connect_binds_then_connects() {
    let mut socket = created_socket(1, Some(full_dispatch()));
    let (mut task, a) = socket.connect(remote());
    assert!(matches!(a, SocketAction::ResetContext { reuse_status: STATUS_UNSUCCESSFUL }));
    let irp = socket.async_context.irp.as_ref().unwrap();
    assert_eq!(irp.io_status.status, STATUS_UNSUCCESSFUL);
    assert_eq!(irp.stack[0].control, 0xE0);
    let a = task.step(&mut socket, SocketEvent::Performed);
    assert!(matches!(
        a,
        SocketAction::Issue(WskRequest::Bind { local: SockAddrIn { family: AF_INET, port: 0, addr: 0 } })
    ));
    let a = task.step(&mut socket, SocketEvent::Completed(STATUS_SUCCESS, io(STATUS_SUCCESS, 0)));
    assert!(matches!(a, SocketAction::ResetContext { reuse_status: STATUS_UNSUCCESSFUL }));
    let a = task.step(&mut socket, SocketEvent::Performed);
    assert!(matches!(
        a,
        SocketAction::Issue(WskRequest::Connect { remote: SockAddrIn { family: AF_INET, port: 80, addr: 0x0102_0304 } })
    ));
    let a = task.step(&mut socket, SocketEvent::Completed(STATUS_SUCCESS, io(STATUS_SUCCESS, 0)));
    assert!(matches!(a, SocketAction::Finish(Ok(0))));
}

#[test]
fn connect_stops_when_bind_fails() {
    let mut socket = created_socket(1, Some(full_dispatch()));
    let (mut task, _) = socket.connect(remote());
    task.step(&mut socket, SocketEvent::Performed);
    let a = task.step(&mut socket, SocketEvent::Completed(-3, io(0, 0)));
    assert!(matches!(a, SocketAction::Finish(Err(-3))));
}

#[test]
fn connect_without_dispatch_entries_is_not_found() {
    let mut d = full_dispatch();
    d.has_connect = false;
    let mut socket = created_socket(1, Some(d));
    let (task, a) = socket.connect(remote());
    assert!(matches!(a, SocketAction::Finish(Err(e)) if e == STATUS_NOT_FOUND));
    assert!(matches!(task.phase, TaskPhase::Finished(Err(_))));
}

fn start_transfer(socket: &mut KernelSocket, kind: KernelSocketTransfertType) -> SocketTask {
    let (mut task, a) = socket.transfert(kind, 7, 64);
    assert!(matches!(a, SocketAction::AllocateMdl { length: 64 }));
    let a = task.step(socket, SocketEvent::Allocated(0x4000));
    assert!(matches!(a, SocketAction::ResetContext { reuse_status: STATUS_UNSUCCESSFUL }));
    let a = task.step(socket, SocketEvent::Performed);
    assert!(matches!(
        a,
        SocketAction::LockMdl { mdl: 0x4000, access_mode: KERNEL_MODE, operation: IO_WRITE_ACCESS }
    ));
    let a = task.step(socket, SocketEvent::Status(STATUS_SUCCESS));
    assert!(task.locked);
    match kind {
        KernelSocketTransfertType::Send => assert!(matches!(
            a,
            SocketAction::Issue(WskRequest::Send { mdl: 0x4000, length: 64, flags: 7 })
        )),
        KernelSocketTransfertType::Receive => assert!(matches!(
            a,
            SocketAction::Issue(WskRequest::Receive { mdl: 0x4000, length: 64, flags: 7 })
        )),
    }
    task
}

#[test]
fn transfer_reports_byte_count_after_unlocking() {
    let mut socket = created_socket(1, Some(full_dispatch()));
    let mut task = start_transfer(&mut socket, KernelSocketTransfertType::Send);
    let a = task.step(&mut socket, SocketEvent::Completed(STATUS_SUCCESS, io(STATUS_SUCCESS, 51)));
    assert!(matches!(a, SocketAction::UnlockMdl(0x4000)));
    assert!(!task.locked);
    let a = task.step(&mut socket, SocketEvent::Performed);
    assert!(matches!(a, SocketAction::Finish(Ok(51))));
}

#[test]
fn transfer_of_nothing_is_end_of_file() {
    let mut socket = created_socket(1, Some(full_dispatch()));
    let mut task = start_transfer(&mut socket, KernelSocketTransfertType::Receive);
    task.step(&mut socket, SocketEvent::Completed(STATUS_PENDING, io(0, 0)));
    let a = task.step(&mut socket, SocketEvent::Completed(STATUS_SUCCESS, io(STATUS_SUCCESS, 0)));
    assert!(matches!(a, SocketAction::UnlockMdl(_)));
    let a = task.step(&mut socket, SocketEvent::Performed);
    assert!(matches!(a, SocketAction::Finish(Err(e)) if e == STATUS_END_OF_FILE));
}

#[test]
fn transfer_failure_unlocks_then_reports() {
    let mut socket = created_socket(1, Some(full_dispatch()));
    let mut task = start_transfer(&mut socket, KernelSocketTransfertType::Receive);
    let a = task.step(&mut socket, SocketEvent::Completed(-11, io(0, 0)));
    assert!(matches!(a, SocketAction::UnlockMdl(0x4000)));
    let a = task.step(&mut socket, SocketEvent::Performed);
    assert!(matches!(a, SocketAction::Finish(Err(-11))));
}

#[test]
fn transfer_without_descriptor_list_is_out_of_resources() {
    let mut socket = created_socket(1, Some(full_dispatch()));
    let (mut task, _) = socket.transfert(KernelSocketTransfertType::Send, 0, 10);
    let a = task.step(&mut socket, SocketEvent::Allocated(0));
    assert!(matches!(a, SocketAction::Finish(Err(e)) if e == STATUS_INSUFFICIENT_RESOURCES));
}

#[test]
fn transfer_without_dispatch_entry_is_not_found() {
    let mut d = full_dispatch();
    d.has_receive = false;
    let mut socket = created_socket(1, Some(d));
    let (mut task, _) = socket.transfert(KernelSocketTransfertType::Receive, 0, 10);
    let a = task.step(&mut socket, SocketEvent::Allocated(0x4000));
    assert!(matches!(a, SocketAction::Finish(Err(e)) if e == STATUS_NOT_FOUND));
}

#[test]
fn transfer_lock_failure_reports_lock_status() {
    let mut socket = created_socket(1, Some(full_dispatch()));
    let (mut task, _) = socket.transfert(KernelSocketTransfertType::Send, 0, 10);
    task.step(&mut socket, SocketEvent::Allocated(0x4000));
    task.step(&mut socket, SocketEvent::Performed);
    let a = task.step(&mut socket, SocketEvent::Status(-21));
    assert!(matches!(a, SocketAction::Finish(Err(-21))));
    assert!(!task.locked);
}

#[test]
fn close_frees_packet_after_success() {
    let mut socket = created_socket(1, Some(full_dispatch()));
    let (mut task, a) = socket.close();
    assert!(matches!(a, SocketAction::ResetContext { reuse_status: STATUS_UNSUCCESSFUL }));
    let a = task.step(&mut socket, SocketEvent::Performed);
    assert!(matches!(a, SocketAction::Issue(WskRequest::CloseSocket)));
    let a = task.step(&mut socket, SocketEvent::Completed(STATUS_SUCCESS, io(STATUS_SUCCESS, 0)));
    assert!(matches!(a, SocketAction::FreeIrp));
    assert!(socket.async_context.irp.is_none());
    assert_eq!(socket.wsk_socket, 1);
    assert!(socket.wsk_connection_dispatch.is_some());
    assert!(!socket.is_usable());
    let a = task.step(&mut socket, SocketEvent::Performed);
    assert!(matches!(a, SocketAction::Finish(Ok(0))));
}

#[test]
fn close_failure_keeps_packet() {
    let mut socket = created_socket(1, Some(full_dispatch()));
    let (mut task, _) = socket.close();
    task.step(&mut socket, SocketEvent::Performed);
    let a = task.step(&mut socket, SocketEvent::Completed(-2, io(0, 0)));
    assert!(matches!(a, SocketAction::Finish(Err(-2))));
    assert!(socket.async_context.irp.is_some());
}

#[test]
fn close_of_socket_never_created_is_not_found() {
    let (mut socket, _, _) = KernelSocket::new(ROUTINE, EVENT, CLIENT, AF_INET, SOCK_STREAM, IPPROTO_TCP, true);
    let (_, a) = socket.close();
    assert!(matches!(a, SocketAction::Finish(Err(e)) if e == STATUS_NOT_FOUND));
}

#[test]
fn answer_of_wrong_kind_repeats_the_request() {
    let mut socket = created_socket(1, Some(full_dispatch()));
    let (mut task, _) = socket.connect(remote());
    let a = task.step(&mut socket, SocketEvent::Status(STATUS_SUCCESS));
    assert!(matches!(a, SocketAction::ResetContext { reuse_status: STATUS_UNSUCCESSFUL }));
    let a = task.step(&mut socket, SocketEvent::Performed);
    assert!(matches!(a, SocketAction::Issue(WskRequest::Bind { .. })));
}

#[test]
fn connect_without_bind_entry_stays_not_found() {
    let mut socket = created_socket(1, Some(full_dispatch()));
    let mut d = full_dispatch();
    d.has_bind = false;
    socket.wsk_connection_dispatch = Some(d);
    let (mut task, _) = socket.connect(remote());
    let a = task.step(&mut socket, SocketEvent::Performed);
    assert!(matches!(a, SocketAction::Finish(Err(e)) if e == STATUS_NOT_FOUND));
    let a = task.step(&mut socket, SocketEvent::Completed(STATUS_SUCCESS, io(STATUS_SUCCESS, 4)));
    assert!(matches!(a, SocketAction::Finish(Err(e)) if e == STATUS_NOT_FOUND));
}

#[test]
fn socket_checks_and_stream_start() {
    let socket = created_socket(1, Some(full_dispatch()));
    assert!(socket.is_well_formed());
    let mut rx = socket.stream_receive::<()>(16);
    assert_eq!(rx.next_receive(), Some(0));
    assert_eq!(rx.room(), 16);
    let (mut fresh, task, _) = KernelSocket::new(ROUTINE, EVENT, CLIENT, AF_INET, SOCK_STREAM, IPPROTO_TCP, true);
    assert!(task.fits(&fresh));
    fresh.wsk_connection_dispatch = Some(full_dispatch());
    assert!(fresh.is_well_formed());
    assert!(!fresh.is_usable());
}

#[test]
fn transfer_length_is_counted_in_32_bits_for_the_descriptor_list() {
    let mut socket = created_socket(1, Some(full_dispatch()));
    let (_, a) = socket.transfert(KernelSocketTransfertType::Send, 0, (1usize << 32) + 5);
    assert!(matches!(a, SocketAction::AllocateMdl { length: 5 }));
}
