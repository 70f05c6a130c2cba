use vstd::prelude::*;

use crate::receive::ReceiveState;
use crate::socket::{SockAddrIn, AF_INET, IPPROTO_TCP, SOCK_STREAM};
use crate::status::{
    status_outcome, ErrorLike, NtStatus, STATUS_INVALID_DOMAIN_STATE, STATUS_SUCCESS,
    STATUS_UNSUCCESSFUL,
};

verus! {

/// Port of the remote host the driver talks to.
pub const REMOTE_PORT: u16 = 80;

/// Size of the chunks in which the response is received.
pub const RESPONSE_CHUNK_SIZE: usize = 512;

/// The Winsock Kernel interface version for a major and minor number
/// (`WSK_MAKE_VERSION`).
pub fn wsk_make_version(major: u8, minor: u8) -> (version: u16)
    ensures
        version == major * 256 + minor,
{
    let high: u16 = (major as u16) << 8u16;
    let low: u16 = (minor as u16) & 0xFFu16;
    assert(high == major * 256) by (bit_vector)
        requires
            high == (major as u16) << 8u16,
    ;
    assert(low == minor) by (bit_vector)
        requires
            low == (minor as u16) & 0xFFu16,
    ;
    assert(high | low == high + low) by (bit_vector)
        requires
            high == major * 256,
            low == minor,
    ;
    high | low
}

/// The version of the interface the driver asks for: 1.0.
pub fn client_version() -> (version: u16)
    ensures
        version == 0x100,
{
    wsk_make_version(1, 0)
}

/// The address of the remote host, in dotted decimal.
pub fn remote_host() -> (host: &'static str)
    ensures
        host@ == "54.164.234.192"@,
{
    "54.164.234.192"
}

/// The request the driver sends.
pub fn http_request() -> (request: &'static str)
    ensures
        request@ == "GET /range/4096 HTTP/1.1\r\nHost: 54.164.234.192\r\n\r\n"@,
{
    "GET /range/4096 HTTP/1.1\r\nHost: 54.164.234.192\r\n\r\n"
}

/// The outcome of receiving the response: complete is success; a failure
/// keeps its status; a stream left partial is unsuccessful; no decision at
/// all means the stream was in the wrong state.
pub open spec fn spec_receive_outcome(outcome: Option<ReceiveState<()>>) -> Result<(), NtStatus> {
    match outcome {
        None => Err(STATUS_INVALID_DOMAIN_STATE),
        Some(ReceiveState::Complete(_)) => Ok(()),
        Some(ReceiveState::Failure(status)) => Err(status),
        Some(ReceiveState::Partial(_)) => Err(STATUS_UNSUCCESSFUL),
    }
}

/// See [`spec_receive_outcome`].
pub fn receive_outcome(outcome: Option<ReceiveState<()>>) -> (r: Result<(), NtStatus>)
    ensures
        r == spec_receive_outcome(outcome),
{
    match outcome {
        None => Err(STATUS_INVALID_DOMAIN_STATE),
        Some(ReceiveState::Complete(_)) => Ok(()),
        Some(ReceiveState::Failure(status)) => Err(status),
        Some(ReceiveState::Partial(_)) => Err(STATUS_UNSUCCESSFUL),
    }
}

/// What the driver reports once its run is over.
#[derive(Clone, Copy)]
pub enum DriverReport {
    /// Every socket operation succeeded.
    Succeeded,
    /// The registration stood, but an operation on the connection failed.
    ConnectionFailed(NtStatus),
    /// The registration with the provider failed.
    StateCreationFailed(NtStatus),
}

/// What the driver needs done next.
#[derive(Clone, Copy)]
pub enum DriverAction {
    /// Register with the provider, with a client dispatch of this interface
    /// version and no event callbacks, and capture its interface; answer
    /// `Done`.
    CreateState { client_version: u16 },
    /// Create a connection socket of this family, type and protocol; answer
    /// `Done`.
    CreateSocket { address_family: u16, socket_type: u16, protocol: u32 },
    /// Read `host` as an IPv4 address (`RtlIpv4StringToAddressA`, strictly
    /// when `strict`); answer `AddressParsed` with its status and the address.
    ParseAddress { host: &'static str, strict: bool },
    /// Connect the socket to `remote`; answer `Done`.
    Connect { remote: SockAddrIn },
    /// Send the bytes of `request` with `flags`; answer `Sent`.
    SendRequest { request: &'static str, flags: u32 },
    /// Receive the response in chunks of `chunk_size` bytes, deciding with
    /// `http_response_state`; answer `Received` with the outcome.
    ReceiveResponse { chunk_size: usize },
    /// The run is over; log this report.
    Report(DriverReport),
}

/// The answer to the driver's last action.
#[derive(Clone, Copy)]
pub enum DriverEvent {
    Done(Result<(), NtStatus>),
    AddressParsed(NtStatus, u32),
    Sent(Result<usize, NtStatus>),
    Received(Option<ReceiveState<()>>),
}

/// Where the driver's run stands.
#[derive(Clone, Copy)]
pub enum DriverPhase {
    CreatingState,
    CreatingSocket,
    ParsingAddress,
    /// Connecting to the host at this address.
    Connecting { addr: u32 },
    Sending,
    Receiving,
    Reported(DriverReport),
}

/// The driver's run, from registration to the report.
#[derive(Clone, Copy)]
pub struct DriverRun {
    pub phase: DriverPhase,
}

/// The remote address: the host's address on [`REMOTE_PORT`].
pub open spec fn remote_address(addr: u32) -> SockAddrIn {
    SockAddrIn { family: AF_INET, port: REMOTE_PORT, addr }
}

/// `action` is the one a phase waits on, with its arguments: interface
/// version 1.0; a TCP stream socket of the IPv4 family; the remote host read
/// strictly; the port and the address read; the request with no flags; the
/// response chunk size; the report.
pub open spec fn is_driver_pending(phase: DriverPhase, action: DriverAction) -> bool {
    match phase {
        DriverPhase::CreatingState => action == DriverAction::CreateState { client_version: 0x100 },
        DriverPhase::CreatingSocket => action == DriverAction::CreateSocket {
            address_family: AF_INET,
            socket_type: SOCK_STREAM,
            protocol: IPPROTO_TCP,
        },
        DriverPhase::ParsingAddress => action matches DriverAction::ParseAddress { host, strict }
            && host@ == "54.164.234.192"@ && strict,
        DriverPhase::Connecting { addr } => action == DriverAction::Connect { remote: remote_address(addr) },
        DriverPhase::Sending => action matches DriverAction::SendRequest { request, flags }
            && request@ == "GET /range/4096 HTTP/1.1\r\nHost: 54.164.234.192\r\n\r\n"@ && flags == 0,
        DriverPhase::Receiving => action == DriverAction::ReceiveResponse { chunk_size: RESPONSE_CHUNK_SIZE },
        DriverPhase::Reported(report) => action == DriverAction::Report(report),
    }
}

/// The phase that follows a step of the connection: the next one on
/// success, a report of the failure otherwise.
pub open spec fn connection_step(r: Result<(), NtStatus>, next: DriverPhase) -> DriverPhase {
    match r {
        Ok(()) => next,
        Err(e) => DriverPhase::Reported(DriverReport::ConnectionFailed(e)),
    }
}

/// The run's next phase after `event` answers the pending action; an answer
/// of the wrong kind leaves the phase as it is.
pub open spec fn driver_next(phase: DriverPhase, event: DriverEvent) -> DriverPhase {
    match (phase, event) {
        (DriverPhase::CreatingState, DriverEvent::Done(r)) => match r {
            Ok(()) => DriverPhase::CreatingSocket,
            Err(e) => DriverPhase::Reported(DriverReport::StateCreationFailed(e)),
        },
        (DriverPhase::CreatingSocket, DriverEvent::Done(r)) => connection_step(r, DriverPhase::ParsingAddress),
        (DriverPhase::ParsingAddress, DriverEvent::AddressParsed(s, addr)) => connection_step(
            status_outcome(s),
            DriverPhase::Connecting { addr },
        ),
        (DriverPhase::Connecting { .. }, DriverEvent::Done(r)) => connection_step(r, DriverPhase::Sending),
        (DriverPhase::Sending, DriverEvent::Sent(r)) => match r {
            Ok(_) => DriverPhase::Receiving,
            Err(e) => DriverPhase::Reported(DriverReport::ConnectionFailed(e)),
        },
        (DriverPhase::Receiving, DriverEvent::Received(o)) => match spec_receive_outcome(o) {
            Ok(()) => DriverPhase::Reported(DriverReport::Succeeded),
            Err(e) => DriverPhase::Reported(DriverReport::ConnectionFailed(e)),
        },
        _ => phase,
    }
}

fn pending_action(phase: DriverPhase) -> (action: DriverAction)
    ensures
        is_driver_pending(phase, action),
{
    match phase {
        DriverPhase::CreatingState => DriverAction::CreateState { client_version: client_version() },
        DriverPhase::CreatingSocket => DriverAction::CreateSocket {
            address_family: AF_INET,
            socket_type: SOCK_STREAM,
            protocol: IPPROTO_TCP,
        },
        DriverPhase::ParsingAddress => DriverAction::ParseAddress { host: remote_host(), strict: true },
        DriverPhase::Connecting { addr } => DriverAction::Connect {
            remote: SockAddrIn { family: AF_INET, port: REMOTE_PORT, addr },
        },
        DriverPhase::Sending => DriverAction::SendRequest { request: http_request(), flags: 0 },
        DriverPhase::Receiving => DriverAction::ReceiveResponse { chunk_size: RESPONSE_CHUNK_SIZE },
        DriverPhase::Reported(report) => DriverAction::Report(report),
    }
}

impl DriverRun {
    /// Starts a run: the driver registers first, asking for interface
    /// version 1.0.
    pub fn new() -> (r: (DriverRun, DriverAction))
        ensures
            r.0.phase == DriverPhase::CreatingState,
            is_driver_pending(r.0.phase, r.1),
    {
        let phase = DriverPhase::CreatingState;
        (DriverRun { phase }, pending_action(phase))
    }

    /// Takes the answer to the pending action and gives the next action.
    pub fn step(&mut self, event: DriverEvent) -> (action: DriverAction)
        ensures
            final(self).phase == driver_next(old(self).phase, event),
            is_driver_pending(final(self).phase, action),
    {
        let next = match (self.phase, event) {
            (DriverPhase::CreatingState, DriverEvent::Done(r)) => match r {
                Ok(()) => DriverPhase::CreatingSocket,
                Err(e) => DriverPhase::Reported(DriverReport::StateCreationFailed(e)),
            },
            (DriverPhase::CreatingSocket, DriverEvent::Done(r)) => connection_phase(r, DriverPhase::ParsingAddress),
            (DriverPhase::ParsingAddress, DriverEvent::AddressParsed(s, addr)) => connection_phase(
                s.as_either(),
                DriverPhase::Connecting { addr },
            ),
            (DriverPhase::Connecting { .. }, DriverEvent::Done(r)) => connection_phase(r, DriverPhase::Sending),
            (DriverPhase::Sending, DriverEvent::Sent(r)) => match r {
                Ok(_) => DriverPhase::Receiving,
                Err(e) => DriverPhase::Reported(DriverReport::ConnectionFailed(e)),
            },
            (DriverPhase::Receiving, DriverEvent::Received(o)) => match receive_outcome(o) {
                Ok(()) => DriverPhase::Reported(DriverReport::Succeeded),
                Err(e) => DriverPhase::Reported(DriverReport::ConnectionFailed(e)),
            },
            _ => self.phase,
        };
        self.phase = next;
        pending_action(next)
    }

    /// The status the driver's entry point returns: success, whatever the
    /// report, so that the driver stays loaded.
    pub fn entry_status(&self) -> (status: NtStatus)
        ensures
            status == STATUS_SUCCESS,
    {
        STATUS_SUCCESS
    }
}

fn connection_phase(r: Result<(), NtStatus>, next: DriverPhase) -> (phase: DriverPhase)
    ensures
        phase == connection_step(r, next),
{
    match r {
        Ok(()) => next,
        Err(e) => DriverPhase::Reported(DriverReport::ConnectionFailed(e)),
    }
}

/// The run's outcome for the answers of every step, the registration's
/// failure apart from the connection's: the first failing step decides.
pub open spec fn run_report(
    state: Result<(), NtStatus>,
    socket: Result<(), NtStatus>,
    address: NtStatus,
    connect: Result<(), NtStatus>,
    sent: Result<usize, NtStatus>,
    received: Option<ReceiveState<()>>,
) -> DriverReport {
    match state {
        Err(e) => DriverReport::StateCreationFailed(e),
        Ok(()) => match socket {
            Err(e) => DriverReport::ConnectionFailed(e),
            Ok(()) => match status_outcome(address) {
                Err(e) => DriverReport::ConnectionFailed(e),
                Ok(()) => match connect {
                    Err(e) => DriverReport::ConnectionFailed(e),
                    Ok(()) => match sent {
                        Err(e) => DriverReport::ConnectionFailed(e),
                        Ok(_) => match spec_receive_outcome(received) {
                            Err(e) => DriverReport::ConnectionFailed(e),
                            Ok(()) => DriverReport::Succeeded,
                        },
                    },
                },
            },
        },
    }
}

/// Fed the answers of every step in turn, the run goes through its steps in
/// order, each only after the earlier ones succeeded (so that, by
/// [`is_driver_pending`], it connects to the address read back), and ends
/// with the report of its first failing step, or with success; answers
/// after a failure change nothing.
pub proof fn lemma_run_reports_first_failure(
    state: Result<(), NtStatus>,
    socket: Result<(), NtStatus>,
    address: NtStatus,
    addr: u32,
    connect: Result<(), NtStatus>,
    sent: Result<usize, NtStatus>,
    received: Option<ReceiveState<()>>,
)
    ensures
        ({
            let p1 = driver_next(DriverPhase::CreatingState, DriverEvent::Done(state));
            let p2 = driver_next(p1, DriverEvent::Done(socket));
            let p3 = driver_next(p2, DriverEvent::AddressParsed(address, addr));
            let p4 = driver_next(p3, DriverEvent::Done(connect));
            let p5 = driver_next(p4, DriverEvent::Sent(sent));
            let p6 = driver_next(p5, DriverEvent::Received(received));
            &&& state is Ok ==> p1 == DriverPhase::CreatingSocket
            &&& state is Ok && socket is Ok ==> p2 == DriverPhase::ParsingAddress
            &&& state is Ok && socket is Ok && address == STATUS_SUCCESS ==> p3
                == DriverPhase::Connecting { addr }
            &&& state is Ok && socket is Ok && address == STATUS_SUCCESS && connect is Ok ==> p4
                == DriverPhase::Sending
            &&& state is Ok && socket is Ok && address == STATUS_SUCCESS && connect is Ok && sent is Ok
                ==> p5 == DriverPhase::Receiving
            &&& p6 == DriverPhase::Reported(run_report(state, socket, address, connect, sent, received))
        }),
{
}

/// A report, once made, stays.
pub proof fn lemma_report_is_final(report: DriverReport, event: DriverEvent)
    ensures
        driver_next(DriverPhase::Reported(report), event) == DriverPhase::Reported(report),
{
}

} // verus!
