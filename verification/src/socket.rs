use vstd::prelude::*;

use crate::irp::{
    initialized_irp, with_completion_routine, IoSetCompletionRoutine, IoStatusBlock, Irp, IrpView,
};
use crate::mdl::LockedMdl;
use crate::receive::{initial_receive, StreamReceive};
use crate::status::{
    status_outcome, ErrorLike, NtStatus, STATUS_END_OF_FILE, STATUS_INSUFFICIENT_RESOURCES,
    STATUS_MORE_PROCESSING_REQUIRED, STATUS_NOT_FOUND, STATUS_PENDING, STATUS_SUCCESS,
    STATUS_UNSUCCESSFUL,
};

verus! {

/// Direction of a data transfer on a connected socket.
#[derive(Clone, Copy)]
pub enum KernelSocketTransfertType {
    Send,
    Receive,
}

/// Which entries of a connection socket's dispatch table are present.
#[derive(Clone, Copy)]
pub struct ConnectionDispatch {
    pub has_bind: bool,
    pub has_connect: bool,
    pub has_send: bool,
    pub has_receive: bool,
    pub has_close_socket: bool,
}

/// How a request issued with the context's packet ended: it is over with
/// this outcome, or it is still pending and its completion must be awaited.
#[derive(Clone, Copy)]
pub enum Completion {
    Finished(Result<(), NtStatus>),
    Pending,
}

/// The packet and completion event with which a socket's requests are
/// issued and awaited.
pub struct KernelSocketAsyncContext {
    /// Address of the routine that signals the event when a request completes.
    pub completion_routine: usize,
    /// Address of the completion event; the routine's context.
    pub completion_event: usize,
    /// The request packet, once allocated.
    pub irp: Option<Irp>,
}

/// The ghost image of a [`KernelSocketAsyncContext`].
pub struct AsyncContextView {
    pub completion_routine: usize,
    pub completion_event: usize,
    pub irp: Option<IrpView>,
}

impl View for KernelSocketAsyncContext {
    type V = AsyncContextView;

    open spec fn view(&self) -> AsyncContextView {
        AsyncContextView {
            completion_routine: self.completion_routine,
            completion_event: self.completion_event,
            irp: match self.irp {
                Some(irp) => Some(irp@),
                None => None,
            },
        }
    }
}

impl AsyncContextView {
    /// The packet has one stack location and is set up for the next request.
    pub open spec fn wf(self) -> bool {
        self.irp matches Some(irp) ==> irp.stack.len() == 1 && irp.current_location == 1
    }

    /// `irp` with this context's completion routine installed, to be called
    /// on success, error and cancel alike.
    pub open spec fn armed(self, irp: IrpView) -> IrpView {
        with_completion_routine(
            irp,
            Some(self.completion_routine),
            self.completion_event,
            true,
            true,
            true,
        )
    }

    /// After allocating the packet gave `irp_address` (zero when it failed).
    pub open spec fn initialized(self, irp_address: usize) -> AsyncContextView {
        if irp_address == 0 {
            self
        } else {
            AsyncContextView {
                irp: Some(self.armed(initialized_irp(1, STATUS_SUCCESS))),
                ..self
            }
        }
    }

    /// After the event is cleared and the packet reused for a new request.
    pub open spec fn reset(self) -> AsyncContextView {
        AsyncContextView {
            irp: Some(self.armed(initialized_irp(1, STATUS_UNSUCCESSFUL))),
            ..self
        }
    }

    /// After the packet's status block is read back as `io_status`.
    pub open spec fn recorded(self, io_status: IoStatusBlock) -> AsyncContextView {
        match self.irp {
            Some(irp) => AsyncContextView { irp: Some(IrpView { io_status, ..irp }), ..self },
            None => self,
        }
    }

    /// After the packet is freed.
    pub open spec fn freed(self) -> AsyncContextView {
        AsyncContextView { irp: None, ..self }
    }
}

/// The outcome of a request that the context's packet carried, from the
/// status the call returned.
pub open spec fn spec_completion(status: NtStatus) -> Completion {
    if status == STATUS_PENDING {
        Completion::Pending
    } else {
        Completion::Finished(status_outcome(status))
    }
}

/// The outcome of a pending request once waiting for it ended with
/// `wait_status`: a failed wait, else the final status of the request.
pub open spec fn spec_waited(wait_status: NtStatus, request_status: NtStatus) -> Result<(), NtStatus> {
    if wait_status == STATUS_SUCCESS {
        status_outcome(request_status)
    } else {
        Err(wait_status)
    }
}

impl KernelSocketAsyncContext {
    /// A context with no packet yet.
    pub fn new(completion_routine: usize, completion_event: usize) -> (ctx: KernelSocketAsyncContext)
        ensures
            ctx@ == (AsyncContextView { completion_routine, completion_event, irp: None }),
    {
        KernelSocketAsyncContext { completion_routine, completion_event, irp: None }
    }

    /// What the completion routine answers after signalling the event: the
    /// packet stays with its owner.
    pub fn completion_routine_status() -> (status: NtStatus)
        ensures
            status == STATUS_MORE_PROCESSING_REQUIRED,
    {
        STATUS_MORE_PROCESSING_REQUIRED
    }

    /// Takes the address that allocating a one-location packet gave: zero
    /// means no packet, else the packet gets the completion routine.
    pub fn initialize(&mut self, irp_address: usize) -> (r: Result<(), NtStatus>)
        ensures
            final(self)@ == old(self)@.initialized(irp_address),
            r == (if irp_address == 0 {
                Err::<(), NtStatus>(STATUS_INSUFFICIENT_RESOURCES)
            } else {
                Ok(())
            }),
    {
        if irp_address == 0 {
            Err(STATUS_INSUFFICIENT_RESOURCES)
        } else {
            let mut irp = Irp::new(1);
            IoSetCompletionRoutine(
                &mut irp,
                Some(self.completion_routine),
                self.completion_event,
                true,
                true,
                true,
            );
            self.irp = Some(irp);
            Ok(())
        }
    }

    /// Readies the packet for the next request: it is reused with an
    /// unsuccessful status and gets the completion routine again.
    pub fn reset(&mut self)
        requires
            old(self)@.wf(),
            old(self).irp is Some,
        ensures
            final(self)@ == old(self)@.reset(),
            final(self)@.wf(),
    {
        let mut irp = self.irp.take().unwrap();
        irp.reuse(STATUS_UNSUCCESSFUL);
        IoSetCompletionRoutine(
            &mut irp,
            Some(self.completion_routine),
            self.completion_event,
            true,
            true,
            true,
        );
        self.irp = Some(irp);
    }

    /// Whether the request that returned `status` must be waited for.
    pub fn wait_for_completion(status: NtStatus) -> (c: Completion)
        ensures
            c == spec_completion(status),
    {
        if status == STATUS_PENDING {
            Completion::Pending
        } else {
            Completion::Finished(status.as_either())
        }
    }

    /// Keeps the status block read back from the packet.
    pub fn record_completion(&mut self, io_status: IoStatusBlock)
        ensures
            final(self)@ == old(self)@.recorded(io_status),
    {
        if let Some(irp) = &mut self.irp {
            irp.io_status = io_status;
        }
    }

    /// The outcome of a pending request once waiting ended with
    /// `wait_status`, read from the packet's status block.
    pub fn complete_wait(&self, wait_status: NtStatus) -> (r: Result<(), NtStatus>)
        requires
            self.irp is Some,
        ensures
            r == spec_waited(wait_status, self.irp.unwrap().io_status.status),
    {
        match wait_status.as_either() {
            Ok(()) => {
                let irp = self.irp.as_ref().unwrap();
                irp.io_status.status.as_either()
            },
            Err(e) => Err(e),
        }
    }

    /// Forgets the packet once it is freed.
    pub fn free(&mut self)
        ensures
            final(self)@ == old(self)@.freed(),
    {
        self.irp = None;
    }
}


/// A connection socket of the Winsock Kernel: its handle, the entries of its
/// dispatch table, and the context its requests go through.
pub struct KernelSocket {
    /// Socket handle; zero until the socket is created.
    pub wsk_socket: usize,
    /// The connection dispatch table, once the socket is created.
    pub wsk_connection_dispatch: Option<ConnectionDispatch>,
    pub async_context: KernelSocketAsyncContext,
}

/// The ghost image of a [`KernelSocket`].
pub struct KernelSocketView {
    pub wsk_socket: usize,
    pub dispatch: Option<ConnectionDispatch>,
    pub context: AsyncContextView,
}

impl View for KernelSocket {
    type V = KernelSocketView;

    open spec fn view(&self) -> KernelSocketView {
        KernelSocketView {
            wsk_socket: self.wsk_socket,
            dispatch: self.wsk_connection_dispatch,
            context: self.async_context@,
        }
    }
}

impl KernelSocketView {
    /// The socket's packet is set up for the next request.
    pub open spec fn wf(self) -> bool {
        self.context.wf()
    }

    /// The socket can take an operation: a socket with a dispatch table
    /// still has its packet (it is not closed).
    pub open spec fn usable(self) -> bool {
        &&& self.wf()
        &&& self.dispatch is Some ==> self.context.irp is Some
    }
}

/// The IPv4 address family.
pub const AF_INET: u16 = 2;

/// The stream socket type.
pub const SOCK_STREAM: u16 = 1;

/// The TCP protocol.
pub const IPPROTO_TCP: u32 = 6;

/// Socket flag asking for a connection socket.
pub const WSK_FLAG_CONNECTION_SOCKET: u32 = 2;

/// The kernel processor mode.
pub const KERNEL_MODE: i8 = 0;

/// Lock operation asking for write access to the pages.
pub const IO_WRITE_ACCESS: u32 = 1;

/// Stack locations of the packet a socket issues its requests with.
pub const IRP_STACK_SIZE: u8 = 1;

/// An IPv4 socket address: family, port number (in host order; it is
/// stored in network order in the address structure) and address, as held
/// in the structure.
#[derive(Clone, Copy)]
pub struct SockAddrIn {
    pub family: u16,
    pub port: u16,
    pub addr: u32,
}

/// The local address a connection binds to: any address, any port.
pub open spec fn local_bind_address() -> SockAddrIn {
    SockAddrIn { family: AF_INET, port: 0, addr: 0 }
}

/// An operation on a socket.
#[derive(Clone, Copy)]
pub enum SocketOperation {
    /// Create a connection socket for `client` with this family, type and
    /// protocol; says whether the provider offers the call that does it.
    Create {
        client: usize,
        address_family: u16,
        socket_type: u16,
        protocol: u32,
        provider_has_socket: bool,
    },
    /// Bind to the local address, then connect to `remote`.
    Connect { remote: SockAddrIn },
    /// Close the socket and free its packet.
    Close,
    /// Send or receive one buffer of `length` bytes with `flags`.
    Transfert { transfert_type: KernelSocketTransfertType, flags: u32, length: usize },
}

/// A call of the provider, issued with the socket's packet, and the
/// arguments it gets besides the socket and the packet.
#[derive(Clone, Copy)]
pub enum WskRequest {
    /// Create a socket for `client`; no socket context, dispatch, owning
    /// process, owning thread or security descriptor.
    Socket { client: usize, address_family: u16, socket_type: u16, protocol: u32, flags: u32 },
    /// Bind to `local`, with no flags.
    Bind { local: SockAddrIn },
    /// Connect to `remote`, with no flags.
    Connect { remote: SockAddrIn },
    /// Send the buffer that descriptor list `mdl` describes, from offset
    /// zero, `length` bytes, with `flags`.
    Send { mdl: usize, length: usize, flags: u32 },
    /// Receive into that buffer likewise.
    Receive { mdl: usize, length: usize, flags: u32 },
    CloseSocket,
}

/// What an operation needs done next.
#[derive(Clone, Copy)]
pub enum SocketAction {
    /// Initialize the completion event as a synchronization event, not
    /// signalled; answer `Performed`.
    InitializeEvent,
    /// Allocate a packet with this many stack locations, charging no quota;
    /// answer `Allocated` with its address, zero when allocation failed.
    AllocateIrp { stack_size: u8 },
    /// Install the completion routine in the new packet; answer `Performed`.
    SetCompletionRoutine,
    /// Allocate a descriptor list for the transfer buffer, `length` bytes
    /// from its start, not secondary, charging no quota, with no packet;
    /// answer `Allocated` with its address, zero when allocation failed.
    AllocateMdl { length: u32 },
    /// Clear the event, reuse the packet with status `reuse_status` and
    /// install the completion routine; answer `Performed`.
    ResetContext { reuse_status: NtStatus },
    /// Probe and lock the pages of descriptor list `mdl` in `access_mode`
    /// for `operation`; answer `Status`.
    LockMdl { mdl: usize, access_mode: i8, operation: u32 },
    /// Issue this call with the packet; answer `Completed` with the status
    /// it returned and the packet's status block.
    Issue(WskRequest),
    /// Wait for the completion event; answer `Completed` with the status of
    /// the wait and the packet's status block.
    Wait,
    /// Unlock the pages of this descriptor list; answer `Performed`.
    UnlockMdl(usize),
    /// Read the dispatch table of the socket that was just created; answer
    /// `Dispatch`.
    ReadConnectionDispatch,
    /// Free the packet; answer `Performed`.
    FreeIrp,
    /// The operation is over with this outcome: the socket handle for a
    /// creation, the byte count for a transfer, zero otherwise.
    Finish(Result<usize, NtStatus>),
}

/// The answer to the last action.
#[derive(Clone, Copy)]
pub enum SocketEvent {
    Performed,
    Allocated(usize),
    Status(NtStatus),
    Completed(NtStatus, IoStatusBlock),
    Dispatch(Option<ConnectionDispatch>),
}

/// Where an operation stands; the number is the index of the request among
/// those of the operation.
#[derive(Clone, Copy)]
pub enum TaskPhase {
    InitializingEvent,
    AllocatingIrp,
    SettingRoutine,
    AllocatingMdl,
    Resetting(u8),
    LockingMdl,
    Issued(u8),
    Waiting(u8),
    Unlocking(Result<(), NtStatus>),
    ReadingDispatch,
    Freeing,
    Finished(Result<usize, NtStatus>),
}

/// One operation on a socket, run step by step.
#[derive(Clone, Copy)]
pub struct SocketTask {
    pub operation: SocketOperation,
    pub phase: TaskPhase,
    /// Address of the transfer's descriptor list.
    pub mdl: usize,
    /// Whether the transfer buffer's pages are locked.
    pub locked: bool,
    /// Information of the packet's status block, as last read back.
    pub information: usize,
}

/// The call that request `index` of `operation` makes, with the transfer
/// buffer described by descriptor list `mdl`.
pub open spec fn request_of(operation: SocketOperation, mdl: usize, index: u8) -> WskRequest {
    match operation {
        SocketOperation::Create { client, address_family, socket_type, protocol, .. } => WskRequest::Socket {
            client,
            address_family,
            socket_type,
            protocol,
            flags: WSK_FLAG_CONNECTION_SOCKET,
        },
        SocketOperation::Connect { remote } => if index == 0 {
            WskRequest::Bind { local: local_bind_address() }
        } else {
            WskRequest::Connect { remote }
        },
        SocketOperation::Close => WskRequest::CloseSocket,
        SocketOperation::Transfert { transfert_type: KernelSocketTransfertType::Send, flags, length } => WskRequest::Send {
            mdl,
            length,
            flags,
        },
        SocketOperation::Transfert { transfert_type: KernelSocketTransfertType::Receive, flags, length } => WskRequest::Receive {
            mdl,
            length,
            flags,
        },
    }
}

/// Whether the dispatch table offers every call that `operation` makes.
pub open spec fn dispatch_allows(operation: SocketOperation, dispatch: Option<ConnectionDispatch>) -> bool {
    match dispatch {
        None => false,
        Some(d) => match operation {
            SocketOperation::Create { .. } => true,
            SocketOperation::Connect { .. } => d.has_bind && d.has_connect,
            SocketOperation::Close => d.has_close_socket,
            SocketOperation::Transfert { transfert_type: KernelSocketTransfertType::Send, .. } => d.has_send,
            SocketOperation::Transfert { transfert_type: KernelSocketTransfertType::Receive, .. } => d.has_receive,
        },
    }
}

impl SocketTask {
    /// The length the transfer's descriptor list describes: the buffer's
    /// length as a 32-bit count.
    pub open spec fn mdl_length(self) -> u32 {
        match self.operation {
            SocketOperation::Transfert { length, .. } => length as u32,
            _ => 0,
        }
    }

    /// The action the task waits on in its phase.
    pub open spec fn pending_action(self) -> SocketAction {
        match self.phase {
            TaskPhase::InitializingEvent => SocketAction::InitializeEvent,
            TaskPhase::AllocatingIrp => SocketAction::AllocateIrp { stack_size: IRP_STACK_SIZE },
            TaskPhase::SettingRoutine => SocketAction::SetCompletionRoutine,
            TaskPhase::AllocatingMdl => SocketAction::AllocateMdl { length: self.mdl_length() },
            TaskPhase::Resetting(_) => SocketAction::ResetContext { reuse_status: STATUS_UNSUCCESSFUL },
            TaskPhase::LockingMdl => SocketAction::LockMdl {
                mdl: self.mdl,
                access_mode: KERNEL_MODE,
                operation: IO_WRITE_ACCESS,
            },
            TaskPhase::Issued(i) => SocketAction::Issue(request_of(self.operation, self.mdl, i)),
            TaskPhase::Waiting(_) => SocketAction::Wait,
            TaskPhase::Unlocking(_) => SocketAction::UnlockMdl(self.mdl),
            TaskPhase::ReadingDispatch => SocketAction::ReadConnectionDispatch,
            TaskPhase::Freeing => SocketAction::FreeIrp,
            TaskPhase::Finished(r) => SocketAction::Finish(r),
        }
    }

    /// The task over with outcome `r`.
    pub open spec fn finished(self, r: Result<usize, NtStatus>) -> (SocketTask, SocketAction) {
        (SocketTask { phase: TaskPhase::Finished(r), ..self }, SocketAction::Finish(r))
    }

    /// The task in `phase`, waiting on that phase's action.
    pub open spec fn moved(self, phase: TaskPhase) -> (SocketTask, SocketAction) {
        (SocketTask { phase, ..self }, SocketTask { phase, ..self }.pending_action())
    }

    /// After request `index` ended with `r` and any lock is released.
    pub open spec fn finish_request(self, index: u8, r: Result<(), NtStatus>) -> (SocketTask, SocketAction) {
        match r {
            Err(e) => self.finished(Err(e)),
            Ok(()) => match self.operation {
                SocketOperation::Create { .. } => self.moved(TaskPhase::ReadingDispatch),
                SocketOperation::Connect { .. } => if index == 0 {
                    self.moved(TaskPhase::Resetting(1))
                } else {
                    self.finished(Ok(0))
                },
                SocketOperation::Close => self.moved(TaskPhase::Freeing),
                SocketOperation::Transfert { .. } => if self.information == 0 {
                    self.finished(Err(STATUS_END_OF_FILE))
                } else {
                    self.finished(Ok(self.information))
                },
            },
        }
    }

    /// After request `index` ended with `r`: a transfer first unlocks its
    /// buffer.
    pub open spec fn after_request(self, index: u8, r: Result<(), NtStatus>) -> (SocketTask, SocketAction) {
        if self.operation is Transfert {
            (
                SocketTask { phase: TaskPhase::Unlocking(r), locked: false, ..self },
                SocketAction::UnlockMdl(self.mdl),
            )
        } else {
            self.finish_request(index, r)
        }
    }

    /// The task and the next action after `event` answers the pending
    /// action, on a socket that was `socket` before the step. An answer of
    /// the wrong kind leaves the task as it is and asks again.
    pub open spec fn next(self, socket: KernelSocketView, event: SocketEvent) -> (SocketTask, SocketAction) {
        match (self.phase, event) {
            (TaskPhase::Finished(r), _) => self.finished(r),
            (TaskPhase::InitializingEvent, SocketEvent::Performed) => self.moved(TaskPhase::AllocatingIrp),
            (TaskPhase::AllocatingIrp, SocketEvent::Allocated(address)) => if address == 0 {
                self.finished(Err(STATUS_INSUFFICIENT_RESOURCES))
            } else {
                self.moved(TaskPhase::SettingRoutine)
            },
            (TaskPhase::SettingRoutine, SocketEvent::Performed) => {
                if self.operation matches SocketOperation::Create { provider_has_socket: true, .. } {
                    self.moved(TaskPhase::Issued(0))
                } else {
                    self.finished(Err(STATUS_NOT_FOUND))
                }
            },
            (TaskPhase::AllocatingMdl, SocketEvent::Allocated(address)) => if address == 0 {
                self.finished(Err(STATUS_INSUFFICIENT_RESOURCES))
            } else if dispatch_allows(self.operation, socket.dispatch) {
                SocketTask { mdl: address, ..self }.moved(TaskPhase::Resetting(0))
            } else {
                SocketTask { mdl: address, ..self }.finished(Err(STATUS_NOT_FOUND))
            },
            (TaskPhase::Resetting(i), SocketEvent::Performed) => if self.operation is Transfert {
                self.moved(TaskPhase::LockingMdl)
            } else {
                self.moved(TaskPhase::Issued(i))
            },
            (TaskPhase::LockingMdl, SocketEvent::Status(status)) => if status == STATUS_SUCCESS {
                SocketTask { locked: true, ..self }.moved(TaskPhase::Issued(0))
            } else {
                self.finished(Err(status))
            },
            (TaskPhase::Issued(i), SocketEvent::Completed(status, io_status)) => {
                let t = SocketTask { information: io_status.information, ..self };
                if status == STATUS_PENDING {
                    t.moved(TaskPhase::Waiting(i))
                } else {
                    t.after_request(i, status_outcome(status))
                }
            },
            (TaskPhase::Waiting(i), SocketEvent::Completed(status, io_status)) => {
                let t = SocketTask { information: io_status.information, ..self };
                t.after_request(i, spec_waited(status, io_status.status))
            },
            (TaskPhase::Unlocking(r), SocketEvent::Performed) => self.finish_request(0, r),
            (TaskPhase::ReadingDispatch, SocketEvent::Dispatch(_)) => self.finished(Ok(self.information)),
            (TaskPhase::Freeing, SocketEvent::Performed) => self.finished(Ok(0)),
            _ => (self, self.pending_action()),
        }
    }

    /// The socket after the step's answer is taken in, before the next
    /// action's own effect.
    pub open spec fn recorded(self, socket: KernelSocketView, event: SocketEvent) -> KernelSocketView {
        match (self.phase, event) {
            (TaskPhase::AllocatingIrp, SocketEvent::Allocated(address)) => KernelSocketView {
                context: socket.context.initialized(address),
                ..socket
            },
            (TaskPhase::Issued(_), SocketEvent::Completed(_, io_status)) => KernelSocketView {
                context: socket.context.recorded(io_status),
                ..socket
            },
            (TaskPhase::Waiting(_), SocketEvent::Completed(_, io_status)) => KernelSocketView {
                context: socket.context.recorded(io_status),
                ..socket
            },
            (TaskPhase::ReadingDispatch, SocketEvent::Dispatch(dispatch)) => KernelSocketView {
                wsk_socket: self.information,
                dispatch,
                ..socket
            },
            _ => socket,
        }
    }

    /// The socket after the step.
    pub open spec fn socket_after(self, socket: KernelSocketView, event: SocketEvent) -> KernelSocketView {
        action_effect(self.recorded(socket, event), self.next(socket, event).1)
    }

    /// The task fits the socket: the packet is there whenever the task
    /// uses it, the buffer is locked exactly while a transfer's request is
    /// outstanding, the phase belongs to the operation, and the request
    /// index is one of the operation's requests.
    pub open spec fn consistent(self, socket: KernelSocketView) -> bool {
        &&& socket.wf()
        &&& match self.phase {
            TaskPhase::SettingRoutine | TaskPhase::Resetting(_) | TaskPhase::LockingMdl
            | TaskPhase::Issued(_) | TaskPhase::Waiting(_) | TaskPhase::Unlocking(_)
            | TaskPhase::ReadingDispatch => socket.context.irp is Some,
            TaskPhase::AllocatingMdl => socket.dispatch is Some ==> socket.context.irp is Some,
            _ => true,
        }
        &&& self.locked <==> (self.operation is Transfert && (self.phase is Issued
            || self.phase is Waiting))
        &&& match self.phase {
            TaskPhase::InitializingEvent | TaskPhase::AllocatingIrp | TaskPhase::SettingRoutine
            | TaskPhase::ReadingDispatch => self.operation is Create,
            TaskPhase::AllocatingMdl | TaskPhase::LockingMdl | TaskPhase::Unlocking(_) => self.operation is Transfert,
            TaskPhase::Freeing => self.operation is Close,
            _ => true,
        }
        &&& match self.phase {
            TaskPhase::Resetting(i) | TaskPhase::Issued(i) | TaskPhase::Waiting(i) => i <= if self.operation is Connect {
                1u8
            } else {
                0u8
            },
            _ => true,
        }
    }
}

/// What performing `action` does to the socket's state: resetting readies
/// the packet again; freeing the packet leaves the socket without one.
pub open spec fn action_effect(socket: KernelSocketView, action: SocketAction) -> KernelSocketView {
    match action {
        SocketAction::ResetContext { .. } => KernelSocketView { context: socket.context.reset(), ..socket },
        SocketAction::FreeIrp => KernelSocketView { context: socket.context.freed(), ..socket },
        _ => socket,
    }
}

/// The task that starts `operation` and its first action, on a socket that
/// was `socket` before.
pub open spec fn start_of(operation: SocketOperation, socket: KernelSocketView) -> (SocketTask, SocketAction) {
    let t = SocketTask {
        operation,
        phase: TaskPhase::InitializingEvent,
        mdl: 0,
        locked: false,
        information: 0,
    };
    match operation {
        SocketOperation::Create { .. } => t.moved(TaskPhase::InitializingEvent),
        SocketOperation::Transfert { .. } => t.moved(TaskPhase::AllocatingMdl),
        _ => if dispatch_allows(operation, socket.dispatch) {
            t.moved(TaskPhase::Resetting(0))
        } else {
            t.finished(Err(STATUS_NOT_FOUND))
        },
    }
}

fn request_for(operation: SocketOperation, mdl: usize, index: u8) -> (r: WskRequest)
    ensures
        r == request_of(operation, mdl, index),
{
    match operation {
        SocketOperation::Create { client, address_family, socket_type, protocol, .. } => WskRequest::Socket {
            client,
            address_family,
            socket_type,
            protocol,
            flags: WSK_FLAG_CONNECTION_SOCKET,
        },
        SocketOperation::Connect { remote } => if index == 0 {
            WskRequest::Bind { local: SockAddrIn { family: AF_INET, port: 0, addr: 0 } }
        } else {
            WskRequest::Connect { remote }
        },
        SocketOperation::Close => WskRequest::CloseSocket,
        SocketOperation::Transfert { transfert_type: KernelSocketTransfertType::Send, flags, length } => WskRequest::Send {
            mdl,
            length,
            flags,
        },
        SocketOperation::Transfert { transfert_type: KernelSocketTransfertType::Receive, flags, length } => WskRequest::Receive {
            mdl,
            length,
            flags,
        },
    }
}

fn allows(operation: SocketOperation, dispatch: Option<ConnectionDispatch>) -> (r: bool)
    ensures
        r == dispatch_allows(operation, dispatch),
{
    match dispatch {
        None => false,
        Some(d) => match operation {
            SocketOperation::Create { .. } => true,
            SocketOperation::Connect { .. } => d.has_bind && d.has_connect,
            SocketOperation::Close => d.has_close_socket,
            SocketOperation::Transfert { transfert_type: KernelSocketTransfertType::Send, .. } => d.has_send,
            SocketOperation::Transfert { transfert_type: KernelSocketTransfertType::Receive, .. } => d.has_receive,
        },
    }
}

impl SocketTask {
    fn mdl_length_exec(&self) -> (length: u32)
        ensures
            length == self.mdl_length(),
    {
        match self.operation {
            SocketOperation::Transfert { length, .. } => length as u32,
            _ => 0,
        }
    }

    fn pending(&self) -> (a: SocketAction)
        ensures
            a == self.pending_action(),
    {
        match self.phase {
            TaskPhase::InitializingEvent => SocketAction::InitializeEvent,
            TaskPhase::AllocatingIrp => SocketAction::AllocateIrp { stack_size: IRP_STACK_SIZE },
            TaskPhase::SettingRoutine => SocketAction::SetCompletionRoutine,
            TaskPhase::AllocatingMdl => SocketAction::AllocateMdl { length: self.mdl_length_exec() },
            TaskPhase::Resetting(_) => SocketAction::ResetContext { reuse_status: STATUS_UNSUCCESSFUL },
            TaskPhase::LockingMdl => SocketAction::LockMdl {
                mdl: self.mdl,
                access_mode: KERNEL_MODE,
                operation: IO_WRITE_ACCESS,
            },
            TaskPhase::Issued(i) => SocketAction::Issue(request_for(self.operation, self.mdl, i)),
            TaskPhase::Waiting(_) => SocketAction::Wait,
            TaskPhase::Unlocking(_) => SocketAction::UnlockMdl(self.mdl),
            TaskPhase::ReadingDispatch => SocketAction::ReadConnectionDispatch,
            TaskPhase::Freeing => SocketAction::FreeIrp,
            TaskPhase::Finished(r) => SocketAction::Finish(r),
        }
    }

    fn finish(self, r: Result<usize, NtStatus>) -> (out: (SocketTask, SocketAction))
        ensures
            out == self.finished(r),
    {
        (SocketTask { phase: TaskPhase::Finished(r), ..self }, SocketAction::Finish(r))
    }

    fn move_to(self, phase: TaskPhase) -> (out: (SocketTask, SocketAction))
        ensures
            out == self.moved(phase),
    {
        let t = SocketTask { phase, ..self };
        let a = t.pending();
        (t, a)
    }

    fn finish_request_exec(self, index: u8, r: Result<(), NtStatus>) -> (out: (SocketTask, SocketAction))
        ensures
            out == self.finish_request(index, r),
    {
        match r {
            Err(e) => self.finish(Err(e)),
            Ok(()) => match self.operation {
                SocketOperation::Create { .. } => self.move_to(TaskPhase::ReadingDispatch),
                SocketOperation::Connect { .. } => if index == 0 {
                    self.move_to(TaskPhase::Resetting(1))
                } else {
                    self.finish(Ok(0))
                },
                SocketOperation::Close => self.move_to(TaskPhase::Freeing),
                SocketOperation::Transfert { .. } => if self.information == 0 {
                    self.finish(Err(STATUS_END_OF_FILE))
                } else {
                    self.finish(Ok(self.information))
                },
            },
        }
    }

    fn after_request_exec(self, index: u8, r: Result<(), NtStatus>) -> (out: (SocketTask, SocketAction))
        ensures
            out == self.after_request(index, r),
    {
        match self.operation {
            SocketOperation::Transfert { .. } => (
                SocketTask { phase: TaskPhase::Unlocking(r), locked: false, ..self },
                SocketAction::UnlockMdl(self.mdl),
            ),
            _ => self.finish_request_exec(index, r),
        }
    }

    /// Whether the task fits the socket, as [`SocketTask::step`] needs.
    pub fn fits(&self, socket: &KernelSocket) -> (r: bool)
        ensures
            r == self.consistent(socket@),
    {
        let has_irp = socket.async_context.irp.is_some();
        let phase_ok = match self.phase {
            TaskPhase::SettingRoutine | TaskPhase::Resetting(_) | TaskPhase::LockingMdl
            | TaskPhase::Issued(_) | TaskPhase::Waiting(_) | TaskPhase::Unlocking(_)
            | TaskPhase::ReadingDispatch => has_irp,
            TaskPhase::AllocatingMdl => socket.wsk_connection_dispatch.is_none() || has_irp,
            _ => true,
        };
        let is_transfert = match self.operation {
            SocketOperation::Transfert { .. } => true,
            _ => false,
        };
        let outstanding = match self.phase {
            TaskPhase::Issued(_) | TaskPhase::Waiting(_) => true,
            _ => false,
        };
        let operation_ok = match self.phase {
            TaskPhase::InitializingEvent | TaskPhase::AllocatingIrp | TaskPhase::SettingRoutine
            | TaskPhase::ReadingDispatch => match self.operation {
                SocketOperation::Create { .. } => true,
                _ => false,
            },
            TaskPhase::AllocatingMdl | TaskPhase::LockingMdl | TaskPhase::Unlocking(_) => is_transfert,
            TaskPhase::Freeing => match self.operation {
                SocketOperation::Close => true,
                _ => false,
            },
            _ => true,
        };
        let index_ok = match self.phase {
            TaskPhase::Resetting(i) | TaskPhase::Issued(i) | TaskPhase::Waiting(i) => match self.operation {
                SocketOperation::Connect { .. } => i <= 1,
                _ => i == 0,
            },
            _ => true,
        };
        socket.is_well_formed() && phase_ok && (self.locked == (is_transfert && outstanding))
            && operation_ok && index_ok
    }

    /// Takes the answer to the pending action and gives the next action.
    pub fn step(&mut self, socket: &mut KernelSocket, event: SocketEvent) -> (action: SocketAction)
        requires
            old(self).consistent(old(socket)@),
        ensures
            (*final(self), action) == old(self).next(old(socket)@, event),
            final(socket)@ == old(self).socket_after(old(socket)@, event),
            final(self).consistent(final(socket)@),
    {
        let t = *self;
        let (next, action) = match (t.phase, event) {
            (TaskPhase::Finished(r), _) => t.finish(r),
            (TaskPhase::InitializingEvent, SocketEvent::Performed) => t.move_to(TaskPhase::AllocatingIrp),
            (TaskPhase::AllocatingIrp, SocketEvent::Allocated(address)) => {
                match socket.async_context.initialize(address) {
                    Err(e) => t.finish(Err(e)),
                    Ok(()) => t.move_to(TaskPhase::SettingRoutine),
                }
            },
            (TaskPhase::SettingRoutine, SocketEvent::Performed) => match t.operation {
                SocketOperation::Create { provider_has_socket: true, .. } => t.move_to(TaskPhase::Issued(0)),
                _ => t.finish(Err(STATUS_NOT_FOUND)),
            },
            (TaskPhase::AllocatingMdl, SocketEvent::Allocated(address)) => if address == 0 {
                t.finish(Err(STATUS_INSUFFICIENT_RESOURCES))
            } else if allows(t.operation, socket.wsk_connection_dispatch) {
                SocketTask { mdl: address, ..t }.move_to(TaskPhase::Resetting(0))
            } else {
                SocketTask { mdl: address, ..t }.finish(Err(STATUS_NOT_FOUND))
            },
            (TaskPhase::Resetting(i), SocketEvent::Performed) => match t.operation {
                SocketOperation::Transfert { .. } => t.move_to(TaskPhase::LockingMdl),
                _ => t.move_to(TaskPhase::Issued(i)),
            },
            (TaskPhase::LockingMdl, SocketEvent::Status(status)) => match LockedMdl::new(t.mdl, status) {
                Ok(_) => SocketTask { locked: true, ..t }.move_to(TaskPhase::Issued(0)),
                Err(e) => t.finish(Err(e)),
            },
            (TaskPhase::Issued(i), SocketEvent::Completed(status, io_status)) => {
                socket.async_context.record_completion(io_status);
                let u = SocketTask { information: io_status.information, ..t };
                match KernelSocketAsyncContext::wait_for_completion(status) {
                    Completion::Pending => u.move_to(TaskPhase::Waiting(i)),
                    Completion::Finished(r) => u.after_request_exec(i, r),
                }
            },
            (TaskPhase::Waiting(i), SocketEvent::Completed(status, io_status)) => {
                socket.async_context.record_completion(io_status);
                let u = SocketTask { information: io_status.information, ..t };
                let r = socket.async_context.complete_wait(status);
                u.after_request_exec(i, r)
            },
            (TaskPhase::Unlocking(r), SocketEvent::Performed) => t.finish_request_exec(0, r),
            (TaskPhase::ReadingDispatch, SocketEvent::Dispatch(dispatch)) => {
                socket.wsk_socket = t.information;
                socket.wsk_connection_dispatch = dispatch;
                t.finish(Ok(t.information))
            },
            (TaskPhase::Freeing, SocketEvent::Performed) => t.finish(Ok(0)),
            _ => {
                let a = t.pending();
                (t, a)
            },
        };
        perform(socket, action);
        *self = next;
        action
    }
}

/// Applies the effect of `action` on the socket's state.
fn perform(socket: &mut KernelSocket, action: SocketAction)
    requires
        old(socket)@.context.wf(),
        action is ResetContext ==> old(socket).async_context.irp is Some,
    ensures
        final(socket)@ == action_effect(old(socket)@, action),
{
    match action {
        SocketAction::ResetContext { .. } => socket.async_context.reset(),
        SocketAction::FreeIrp => socket.async_context.free(),
        _ => {},
    }
}

impl KernelSocket {
    /// Whether the socket's packet, if any, has one location and is set up
    /// for the next request.
    pub fn is_well_formed(&self) -> (r: bool)
        ensures
            r == self@.wf(),
    {
        match &self.async_context.irp {
            Some(irp) => irp.stack.len() == 1 && irp.current_location == 1,
            None => true,
        }
    }

    /// Whether the socket can take an operation: well formed, and still with
    /// its packet when it has a dispatch table.
    pub fn is_usable(&self) -> (r: bool)
        ensures
            r == self@.usable(),
    {
        self.is_well_formed() && (self.wsk_connection_dispatch.is_none()
            || self.async_context.irp.is_some())
    }

    /// A socket not created yet, whose requests signal `completion_event`
    /// through `completion_routine`, and the task that creates it for
    /// `client` with this family, type and protocol.
    pub fn new(
        completion_routine: usize,
        completion_event: usize,
        client: usize,
        address_family: u16,
        socket_type: u16,
        protocol: u32,
        provider_has_socket: bool,
    ) -> (r: (KernelSocket, SocketTask, SocketAction))
        ensures
            r.0@ == (KernelSocketView {
                wsk_socket: 0,
                dispatch: None,
                context: AsyncContextView { completion_routine, completion_event, irp: None },
            }),
            (r.1, r.2) == start_of(
                SocketOperation::Create { client, address_family, socket_type, protocol, provider_has_socket },
                r.0@,
            ),
            r.1.consistent(r.0@),
    {
        let mut socket = KernelSocket {
            wsk_socket: 0,
            wsk_connection_dispatch: None,
            async_context: KernelSocketAsyncContext::new(completion_routine, completion_event),
        };
        let (task, action) = socket.start(
            SocketOperation::Create { client, address_family, socket_type, protocol, provider_has_socket },
        );
        (socket, task, action)
    }

    /// Starts `operation` on this socket.
    fn start(&mut self, operation: SocketOperation) -> (r: (SocketTask, SocketAction))
        requires
            old(self)@.usable(),
        ensures
            r == start_of(operation, old(self)@),
            final(self)@ == action_effect(old(self)@, r.1),
            r.0.consistent(final(self)@),
    {
        let t = SocketTask {
            operation,
            phase: TaskPhase::InitializingEvent,
            mdl: 0,
            locked: false,
            information: 0,
        };
        let (task, action) = match operation {
            SocketOperation::Create { .. } => t.move_to(TaskPhase::InitializingEvent),
            SocketOperation::Transfert { .. } => t.move_to(TaskPhase::AllocatingMdl),
            _ => if allows(operation, self.wsk_connection_dispatch) {
                t.move_to(TaskPhase::Resetting(0))
            } else {
                t.finish(Err(STATUS_NOT_FOUND))
            },
        };
        perform(self, action);
        (task, action)
    }

    /// Starts binding the socket to the local address and connecting it to
    /// `remote`.
    pub fn connect(&mut self, remote: SockAddrIn) -> (r: (SocketTask, SocketAction))
        requires
            old(self)@.usable(),
        ensures
            r == start_of(SocketOperation::Connect { remote }, old(self)@),
            final(self)@ == action_effect(old(self)@, r.1),
            r.0.consistent(final(self)@),
    {
        self.start(SocketOperation::Connect { remote })
    }

    /// Starts closing the socket.
    pub fn close(&mut self) -> (r: (SocketTask, SocketAction))
        requires
            old(self)@.usable(),
        ensures
            r == start_of(SocketOperation::Close, old(self)@),
            final(self)@ == action_effect(old(self)@, r.1),
            r.0.consistent(final(self)@),
    {
        self.start(SocketOperation::Close)
    }

    /// Starts receiving a stream on this socket, in chunks of `chunk_size`
    /// bytes; each chunk is one receive transfer.
    pub fn stream_receive<T: Copy>(&self, chunk_size: usize) -> (r: StreamReceive<T>)
        ensures
            r@ == initial_receive::<T>(chunk_size),
    {
        StreamReceive::new(chunk_size)
    }

    /// Starts sending or receiving one buffer of `length` bytes with `flags`.
    pub fn transfert(
        &mut self,
        transfert_type: KernelSocketTransfertType,
        flags: u32,
        length: usize,
    ) -> (r: (SocketTask, SocketAction))
        requires
            old(self)@.usable(),
        ensures
            r == start_of(SocketOperation::Transfert { transfert_type, flags, length }, old(self)@),
            final(self)@ == action_effect(old(self)@, r.1),
            r.0.consistent(final(self)@),
    {
        self.start(SocketOperation::Transfert { transfert_type, flags, length })
    }
}

/// Every step keeps a task consistent with its socket.
pub proof fn lemma_step_keeps_consistency(task: SocketTask, socket: KernelSocketView, event: SocketEvent)
    requires
        task.consistent(socket),
    ensures
        task.next(socket, event).0.consistent(task.socket_after(socket, event)),
{
}

/// Once an operation is over, it stays over with the same outcome, whatever
/// answer comes.
pub proof fn lemma_finished_is_final(
    task: SocketTask,
    socket: KernelSocketView,
    event: SocketEvent,
    r: Result<usize, NtStatus>,
)
    requires
        task.phase == TaskPhase::Finished(r),
    ensures
        task.next(socket, event) == (task, SocketAction::Finish(r)),
        task.socket_after(socket, event) == socket,
{
}

/// An operation never ends while the transfer buffer is still locked.
pub proof fn lemma_no_lock_at_finish(task: SocketTask, socket: KernelSocketView, event: SocketEvent)
    requires
        task.consistent(socket),
        task.next(socket, event).1 is Finish,
    ensures
        !task.next(socket, event).0.locked,
{
}

/// Locks and unlocks pair up: an answered step locks the buffer exactly
/// when the lock request succeeded, unlocks it exactly by asking to unlock
/// the locked list, no other step changes the lock or the list, and the
/// step after the unlock ends the operation, so that nothing is locked
/// again. With [`lemma_no_lock_at_finish`], each successful lock is
/// followed by exactly one unlock before the operation ends.
pub proof fn lemma_lock_unlock_pairing(task: SocketTask, socket: KernelSocketView, event: SocketEvent)
    requires
        task.consistent(socket),
        answers(task.phase, event),
    ensures
        ({
            let (t1, a1) = task.next(socket, event);
            &&& (!task.locked && t1.locked) <==> (task.phase is LockingMdl && event == SocketEvent::Status(
                STATUS_SUCCESS,
            ))
            &&& (task.locked && !t1.locked) <==> (a1 is UnlockMdl)
            &&& a1 is UnlockMdl ==> a1 == SocketAction::UnlockMdl(task.mdl)
            &&& task.locked ==> t1.mdl == task.mdl
            &&& t1.phase is Unlocking ==> !t1.locked
            &&& task.phase is Unlocking ==> t1.phase is Finished
        }),
{
}

/// A call that fails at once ends its operation with that status; a
/// transfer unlocks its buffer first.
pub proof fn lemma_failed_request_ends_operation(
    task: SocketTask,
    socket: KernelSocketView,
    i: u8,
    status: NtStatus,
    io_status: IoStatusBlock,
)
    requires
        task.consistent(socket),
        task.phase == TaskPhase::Issued(i),
        status != STATUS_SUCCESS,
        status != STATUS_PENDING,
    ensures
        ({
            let (t1, a1) = task.next(socket, SocketEvent::Completed(status, io_status));
            let s1 = task.socket_after(socket, SocketEvent::Completed(status, io_status));
            if task.operation is Transfert {
                &&& a1 == SocketAction::UnlockMdl(task.mdl)
                &&& t1.next(s1, SocketEvent::Performed).1 == SocketAction::Finish(Err(status))
            } else {
                a1 == SocketAction::Finish(Err(status))
            }
        }),
{
}

/// A pending call is waited for; a failed wait, or else a failed final
/// status, ends the operation with that status (after unlocking, for a
/// transfer).
pub proof fn lemma_failed_wait_ends_operation(
    task: SocketTask,
    socket: KernelSocketView,
    i: u8,
    wait_status: NtStatus,
    io_status: IoStatusBlock,
)
    requires
        task.consistent(socket),
        task.phase == TaskPhase::Waiting(i),
        spec_waited(wait_status, io_status.status) is Err,
    ensures
        ({
            let e = SocketEvent::Completed(wait_status, io_status);
            let (t1, a1) = task.next(socket, e);
            let s1 = task.socket_after(socket, e);
            let err = if wait_status != STATUS_SUCCESS { wait_status } else { io_status.status };
            if task.operation is Transfert {
                &&& a1 == SocketAction::UnlockMdl(task.mdl)
                &&& t1.next(s1, SocketEvent::Performed).1 == SocketAction::Finish(Err(err))
            } else {
                a1 == SocketAction::Finish(Err(err))
            }
        }),
{
}

/// A transfer of `length` bytes with `flags`: its descriptor list covers
/// the buffer's length, its packet is reset first, its pages are locked for
/// write access in kernel mode, and one call of the right kind gets the
/// locked list, the whole length and the flags. When the call succeeds the
/// buffer is unlocked and the transfer reports the byte count of the status
/// block, which is at least one and, when the provider moved no more than
/// was asked, at most the length; no byte moved is the end of the data.
pub proof fn lemma_transfer_sequence(
    socket: KernelSocketView,
    transfert_type: KernelSocketTransfertType,
    flags: u32,
    length: usize,
    mdl: usize,
    io_status: IoStatusBlock,
)
    requires
        socket.usable(),
        mdl != 0,
        dispatch_allows(SocketOperation::Transfert { transfert_type, flags, length }, socket.dispatch),
    ensures
        ({
            let op = SocketOperation::Transfert { transfert_type, flags, length };
            let (t0, a0) = start_of(op, socket);
            let s0 = action_effect(socket, a0);
            let e1 = SocketEvent::Allocated(mdl);
            let (t1, a1) = t0.next(s0, e1);
            let s1 = t0.socket_after(s0, e1);
            let (t2, a2) = t1.next(s1, SocketEvent::Performed);
            let s2 = t1.socket_after(s1, SocketEvent::Performed);
            let e3 = SocketEvent::Status(STATUS_SUCCESS);
            let (t3, a3) = t2.next(s2, e3);
            let s3 = t2.socket_after(s2, e3);
            let e4 = SocketEvent::Completed(STATUS_SUCCESS, io_status);
            let (t4, a4) = t3.next(s3, e4);
            let s4 = t3.socket_after(s3, e4);
            let (t5, a5) = t4.next(s4, SocketEvent::Performed);
            &&& a0 == SocketAction::AllocateMdl { length: length as u32 }
            &&& a1 == SocketAction::ResetContext { reuse_status: STATUS_UNSUCCESSFUL }
            &&& a2 == SocketAction::LockMdl { mdl, access_mode: KERNEL_MODE, operation: IO_WRITE_ACCESS }
            &&& a3 == SocketAction::Issue(
                match transfert_type {
                    KernelSocketTransfertType::Send => WskRequest::Send { mdl, length, flags },
                    KernelSocketTransfertType::Receive => WskRequest::Receive { mdl, length, flags },
                },
            )
            &&& t3.locked
            &&& a4 == SocketAction::UnlockMdl(mdl)
            &&& a5 == SocketAction::Finish(
                if io_status.information == 0 {
                    Err(STATUS_END_OF_FILE)
                } else {
                    Ok(io_status.information)
                },
            )
            &&& a5 matches SocketAction::Finish(Ok(n)) ==> 1 <= n && (io_status.information <= length
                ==> n <= length)
        }),
{
}

/// A transfer whose call succeeds unlocks its buffer and then reports the
/// byte count of the status block, or the end of the data when no byte
/// moved.
pub proof fn lemma_transfer_byte_count(
    task: SocketTask,
    socket: KernelSocketView,
    io_status: IoStatusBlock,
)
    requires
        task.consistent(socket),
        task.operation is Transfert,
        task.phase == TaskPhase::Issued(0),
    ensures
        ({
            let e = SocketEvent::Completed(STATUS_SUCCESS, io_status);
            let (t1, a1) = task.next(socket, e);
            let s1 = task.socket_after(socket, e);
            &&& a1 == SocketAction::UnlockMdl(task.mdl)
            &&& !t1.locked
            &&& t1.next(s1, SocketEvent::Performed).1 == SocketAction::Finish(
                if io_status.information == 0 {
                    Err(STATUS_END_OF_FILE)
                } else {
                    Ok(io_status.information)
                },
            )
        }),
{
}

/// With both calls answering at once, connecting resets the packet, binds
/// to the local address (any address, any port), and only when the bind
/// succeeded resets again and connects to the remote address; it ends with
/// the bind's failure, else the connect's failure, else success.
pub proof fn lemma_connect_outcome(
    socket: KernelSocketView,
    remote: SockAddrIn,
    bind: NtStatus,
    connect: NtStatus,
    io_status: IoStatusBlock,
)
    requires
        socket.usable(),
        dispatch_allows(SocketOperation::Connect { remote }, socket.dispatch),
        bind != STATUS_PENDING,
        connect != STATUS_PENDING,
    ensures
        ({
            let (t0, a0) = start_of(SocketOperation::Connect { remote }, socket);
            let s0 = action_effect(socket, a0);
            let (t1, a1) = t0.next(s0, SocketEvent::Performed);
            let s1 = t0.socket_after(s0, SocketEvent::Performed);
            let e2 = SocketEvent::Completed(bind, io_status);
            let (t2, a2) = t1.next(s1, e2);
            let s2 = t1.socket_after(s1, e2);
            let (t3, a3) = t2.next(s2, SocketEvent::Performed);
            let s3 = t2.socket_after(s2, SocketEvent::Performed);
            let e4 = SocketEvent::Completed(connect, io_status);
            let (t4, a4) = t3.next(s3, e4);
            &&& a0 == SocketAction::ResetContext { reuse_status: STATUS_UNSUCCESSFUL }
            &&& a1 == SocketAction::Issue(WskRequest::Bind { local: local_bind_address() })
            &&& if bind != STATUS_SUCCESS {
                a2 == SocketAction::Finish(Err(bind))
            } else {
                &&& a2 == SocketAction::ResetContext { reuse_status: STATUS_UNSUCCESSFUL }
                &&& a3 == SocketAction::Issue(WskRequest::Connect { remote })
                &&& a4 == SocketAction::Finish(
                    if connect != STATUS_SUCCESS {
                        Err(connect)
                    } else {
                        Ok(0)
                    },
                )
            }
        }),
{
}

/// Creating a socket whose calls all succeed at once: the packet has one
/// stack location, the socket call gets the client, family, type and
/// protocol with the connection-socket flag, the operation ends with the
/// handle that the packet's status block gave, and the socket keeps that
/// handle, the dispatch table read back, and its armed packet.
pub proof fn lemma_create_records_socket(
    completion_routine: usize,
    completion_event: usize,
    client: usize,
    address_family: u16,
    socket_type: u16,
    protocol: u32,
    irp_address: usize,
    io_status: IoStatusBlock,
    dispatch: Option<ConnectionDispatch>,
)
    requires
        irp_address != 0,
    ensures
        ({
            let s0 = KernelSocketView {
                wsk_socket: 0,
                dispatch: None,
                context: AsyncContextView { completion_routine, completion_event, irp: None },
            };
            let op = SocketOperation::Create {
                client,
                address_family,
                socket_type,
                protocol,
                provider_has_socket: true,
            };
            let (t0, a0) = start_of(op, s0);
            let e1 = SocketEvent::Performed;
            let (t1, a1) = t0.next(s0, e1);
            let s1 = t0.socket_after(s0, e1);
            let e2 = SocketEvent::Allocated(irp_address);
            let (t2, a2) = t1.next(s1, e2);
            let s2 = t1.socket_after(s1, e2);
            let (t3, a3) = t2.next(s2, e1);
            let s3 = t2.socket_after(s2, e1);
            let e4 = SocketEvent::Completed(STATUS_SUCCESS, io_status);
            let (t4, a4) = t3.next(s3, e4);
            let s4 = t3.socket_after(s3, e4);
            let e5 = SocketEvent::Dispatch(dispatch);
            let (t5, a5) = t4.next(s4, e5);
            let s5 = t4.socket_after(s4, e5);
            &&& a0 == SocketAction::InitializeEvent
            &&& a1 == SocketAction::AllocateIrp { stack_size: 1 }
            &&& a2 == SocketAction::SetCompletionRoutine
            &&& a3 == SocketAction::Issue(
                WskRequest::Socket {
                    client,
                    address_family,
                    socket_type,
                    protocol,
                    flags: WSK_FLAG_CONNECTION_SOCKET,
                },
            )
            &&& a4 == SocketAction::ReadConnectionDispatch
            &&& a5 == SocketAction::Finish(Ok(io_status.information))
            &&& s5.wsk_socket == io_status.information
            &&& s5.dispatch == dispatch
            &&& s5.context.irp == Some(
                IrpView { io_status, ..s0.context.armed(initialized_irp(1, STATUS_SUCCESS)) },
            )
        }),
{
}

/// Every operation waits for a call that returns pending: the next action
/// is the wait, for the same request, with the buffer still locked for a
/// transfer; nothing is finished, unlocked or freed yet.
pub proof fn lemma_pending_call_is_waited(
    task: SocketTask,
    socket: KernelSocketView,
    i: u8,
    io_status: IoStatusBlock,
)
    requires
        task.consistent(socket),
        task.phase == TaskPhase::Issued(i),
    ensures
        ({
            let e = SocketEvent::Completed(STATUS_PENDING, io_status);
            let (t1, a1) = task.next(socket, e);
            let s1 = task.socket_after(socket, e);
            &&& a1 == SocketAction::Wait
            &&& t1.phase == TaskPhase::Waiting(i)
            &&& t1.locked == task.locked
            &&& t1.mdl == task.mdl
            &&& s1.context.irp is Some
            &&& s1.wsk_socket == socket.wsk_socket
            &&& s1.dispatch == socket.dispatch
        }),
{
}

/// A request that was waited for and whose final status is success moves
/// the operation on with the status block read after the wait: a transfer
/// unlocks its buffer and reports that block's byte count (the end of the
/// data only when it is zero); a connect's bind is followed by a reset and
/// the connect call to the remote address, and its connect call by
/// success; a close frees its packet and then succeeds; a create reads the
/// dispatch table back and ends with the handle of that status block.
pub proof fn lemma_waited_request_succeeds(
    task: SocketTask,
    socket: KernelSocketView,
    i: u8,
    io_status: IoStatusBlock,
)
    requires
        task.consistent(socket),
        task.phase == TaskPhase::Waiting(i),
        io_status.status == STATUS_SUCCESS,
    ensures
        ({
            let e = SocketEvent::Completed(STATUS_SUCCESS, io_status);
            let (t1, a1) = task.next(socket, e);
            let s1 = task.socket_after(socket, e);
            let (t2, a2) = t1.next(s1, SocketEvent::Performed);
            match task.operation {
                SocketOperation::Transfert { .. } => {
                    &&& a1 == SocketAction::UnlockMdl(task.mdl)
                    &&& !t1.locked
                    &&& a2 == SocketAction::Finish(
                        if io_status.information == 0 {
                            Err(STATUS_END_OF_FILE)
                        } else {
                            Ok(io_status.information)
                        },
                    )
                },
                SocketOperation::Connect { remote } => if i == 0 {
                    &&& a1 == SocketAction::ResetContext { reuse_status: STATUS_UNSUCCESSFUL }
                    &&& a2 == SocketAction::Issue(WskRequest::Connect { remote })
                } else {
                    a1 == SocketAction::Finish(Ok(0))
                },
                SocketOperation::Close => {
                    &&& a1 == SocketAction::FreeIrp
                    &&& s1.context.irp is None
                    &&& a2 == SocketAction::Finish(Ok(0))
                },
                SocketOperation::Create { .. } => {
                    &&& a1 == SocketAction::ReadConnectionDispatch
                    &&& forall|d: Option<ConnectionDispatch>|
                        #[trigger] t1.next(s1, SocketEvent::Dispatch(d)).1 == SocketAction::Finish(
                            Ok(io_status.information),
                        ) && t1.socket_after(s1, SocketEvent::Dispatch(d)).wsk_socket
                            == io_status.information
                },
            }
        }),
{
}

/// A connect succeeds only by the success of its connect call (the second
/// request, after the bind), whether that call answered at once or after a
/// wait; a close frees its packet only once its close call has succeeded,
/// at once or after a wait.
pub proof fn lemma_success_follows_last_request(task: SocketTask, socket: KernelSocketView, event: SocketEvent)
    requires
        task.consistent(socket),
        !(task.phase is Finished),
    ensures
        ({
            let (t1, a1) = task.next(socket, event);
            let succeeded = match event {
                SocketEvent::Completed(status, io_status) => match task.phase {
                    TaskPhase::Issued(_) => status == STATUS_SUCCESS,
                    TaskPhase::Waiting(_) => status == STATUS_SUCCESS && io_status.status == STATUS_SUCCESS,
                    _ => false,
                },
                _ => false,
            };
            &&& (task.operation is Connect && a1 matches SocketAction::Finish(Ok(_))) ==> (
            task.phase == TaskPhase::Issued(1) || task.phase == TaskPhase::Waiting(1)) && succeeded
            &&& (task.operation is Close && a1 == SocketAction::FreeIrp && !(task.phase is Freeing)) ==> (
            task.phase == TaskPhase::Issued(0) || task.phase == TaskPhase::Waiting(0)) && succeeded
        }),
{
}

/// Closing a socket whose close call succeeds at once frees its packet,
/// leaves its handle and dispatch table as they were, and ends with success.
pub proof fn lemma_close_frees_packet(socket: KernelSocketView, io_status: IoStatusBlock)
    requires
        socket.usable(),
        dispatch_allows(SocketOperation::Close, socket.dispatch),
    ensures
        ({
            let (t0, a0) = start_of(SocketOperation::Close, socket);
            let s0 = action_effect(socket, a0);
            let (t1, a1) = t0.next(s0, SocketEvent::Performed);
            let s1 = t0.socket_after(s0, SocketEvent::Performed);
            let e2 = SocketEvent::Completed(STATUS_SUCCESS, io_status);
            let (t2, a2) = t1.next(s1, e2);
            let s2 = t1.socket_after(s1, e2);
            let (t3, a3) = t2.next(s2, SocketEvent::Performed);
            &&& a0 == SocketAction::ResetContext { reuse_status: STATUS_UNSUCCESSFUL }
            &&& a1 == SocketAction::Issue(WskRequest::CloseSocket)
            &&& a2 == SocketAction::FreeIrp
            &&& s2.context.irp is None
            &&& s2.wsk_socket == socket.wsk_socket
            &&& s2.dispatch == socket.dispatch
            &&& a3 == SocketAction::Finish(Ok(0))
        }),
{
}

/// An operation whose dispatch entries are missing ends at once with
/// "not found", leaving the socket as it was.
pub proof fn lemma_missing_dispatch(operation: SocketOperation, socket: KernelSocketView)
    requires
        operation is Connect || operation is Close,
        !dispatch_allows(operation, socket.dispatch),
    ensures
        start_of(operation, socket).1 == SocketAction::Finish(Err(STATUS_NOT_FOUND)),
        action_effect(socket, start_of(operation, socket).1) == socket,
{
}

/// A failed allocation ends the operation with "insufficient resources".
pub proof fn lemma_failed_allocation(task: SocketTask, socket: KernelSocketView)
    requires
        task.phase is AllocatingIrp || task.phase is AllocatingMdl,
    ensures
        task.next(socket, SocketEvent::Allocated(0)).1 == SocketAction::Finish(
            Err(STATUS_INSUFFICIENT_RESOURCES),
        ),
{
}

/// The packet is freed only when a close succeeded; only the packet goes.
pub proof fn lemma_free_only_after_close(task: SocketTask, socket: KernelSocketView, event: SocketEvent)
    requires
        task.consistent(socket),
        task.next(socket, event).1 == SocketAction::FreeIrp,
    ensures
        task.operation is Close,
        task.socket_after(socket, event).context.irp is None,
        task.socket_after(socket, event).dispatch == socket.dispatch,
        task.socket_after(socket, event).wsk_socket == socket.wsk_socket,
{
}

/// Whether `event` is the kind of answer the task's pending action asks for.
pub open spec fn answers(phase: TaskPhase, event: SocketEvent) -> bool {
    match (phase, event) {
        (TaskPhase::InitializingEvent, SocketEvent::Performed) => true,
        (TaskPhase::AllocatingIrp, SocketEvent::Allocated(_)) => true,
        (TaskPhase::SettingRoutine, SocketEvent::Performed) => true,
        (TaskPhase::AllocatingMdl, SocketEvent::Allocated(_)) => true,
        (TaskPhase::Resetting(_), SocketEvent::Performed) => true,
        (TaskPhase::LockingMdl, SocketEvent::Status(_)) => true,
        (TaskPhase::Issued(_), SocketEvent::Completed(_, _)) => true,
        (TaskPhase::Waiting(_), SocketEvent::Completed(_, _)) => true,
        (TaskPhase::Unlocking(_), SocketEvent::Performed) => true,
        (TaskPhase::ReadingDispatch, SocketEvent::Dispatch(_)) => true,
        (TaskPhase::Freeing, SocketEvent::Performed) => true,
        _ => false,
    }
}

/// An upper bound on the answers an operation still needs before it ends.
pub open spec fn remaining_answers(task: SocketTask) -> nat {
    let later: nat = if task.operation is Connect { 4 } else { 0 };
    match task.phase {
        TaskPhase::Finished(_) => 0,
        TaskPhase::Freeing | TaskPhase::ReadingDispatch | TaskPhase::Unlocking(_) => 1,
        TaskPhase::Waiting(i) => 2 + if i == 0 { later } else { 0 },
        TaskPhase::Issued(i) => 3 + if i == 0 { later } else { 0 },
        TaskPhase::LockingMdl | TaskPhase::SettingRoutine => 4,
        TaskPhase::Resetting(i) => if task.operation is Transfert {
            5
        } else {
            4 + if i == 0 { later } else { 0 }
        },
        TaskPhase::AllocatingIrp => 5,
        TaskPhase::InitializingEvent | TaskPhase::AllocatingMdl => 6,
    }
}

/// Every operation ends: each answer of the kind asked for brings it
/// closer to its end, so that no operation takes more than eight answers.
pub proof fn lemma_operation_progresses(task: SocketTask, socket: KernelSocketView, event: SocketEvent)
    requires
        task.consistent(socket),
        task.phase !is Finished,
        answers(task.phase, event),
    ensures
        remaining_answers(task.next(socket, event).0) < remaining_answers(task),
        remaining_answers(task) <= 8,
{
}

} // verus!
