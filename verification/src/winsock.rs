use vstd::prelude::*;

use crate::status::{status_outcome, ErrorLike, NtStatus, STATUS_SUCCESS};

verus! {

/// Wait time that asks not to wait at all.
pub const WSK_NO_WAIT: u32 = 0;

/// What the registration needs done next.
#[derive(Clone, Copy)]
pub enum StateAction {
    /// Register the client (`WskRegister`); answer with its status.
    Register,
    /// Capture the provider's interface (`WskCaptureProviderNPI`), waiting
    /// at most this long for it; answer with its status.
    CaptureProviderNpi { wait_timeout: u32 },
    /// Release the captured provider interface (`WskReleaseProviderNPI`).
    ReleaseProviderNpi,
    /// Deregister the client (`WskDeregister`).
    Deregister,
    /// Setting up is over, with this outcome.
    Finish(Result<(), NtStatus>),
}

/// Where the registration stands.
#[derive(Clone, Copy)]
pub enum StatePhase {
    Registering,
    Capturing,
    Finished(Result<(), NtStatus>),
}

/// The client's registration with the Winsock Kernel provider.
#[derive(Clone, Copy)]
pub struct KernelSocketState {
    pub phase: StatePhase,
}

/// The registration after the status of the pending request comes back.
pub open spec fn state_next(phase: StatePhase, status: NtStatus) -> (StatePhase, StateAction) {
    match phase {
        StatePhase::Registering => if status == STATUS_SUCCESS {
            (StatePhase::Capturing, StateAction::CaptureProviderNpi { wait_timeout: WSK_NO_WAIT })
        } else {
            (StatePhase::Finished(Err(status)), StateAction::Finish(Err(status)))
        },
        StatePhase::Capturing => (
            StatePhase::Finished(status_outcome(status)),
            StateAction::Finish(status_outcome(status)),
        ),
        StatePhase::Finished(r) => (StatePhase::Finished(r), StateAction::Finish(r)),
    }
}

/// The outcome of setting up: the registration's failure, else the outcome
/// of capturing the provider interface.
pub open spec fn setup_outcome(register: NtStatus, capture: NtStatus) -> Result<(), NtStatus> {
    if register != STATUS_SUCCESS {
        Err(register)
    } else {
        status_outcome(capture)
    }
}

impl KernelSocketState {
    /// Starts setting up: the client registers first.
    pub fn new() -> (r: (KernelSocketState, StateAction))
        ensures
            r.0.phase == StatePhase::Registering,
            r.1 == StateAction::Register,
    {
        (KernelSocketState { phase: StatePhase::Registering }, StateAction::Register)
    }

    /// Takes the status of the last requested call and says what comes next.
    pub fn step(&mut self, status: NtStatus) -> (action: StateAction)
        ensures
            (final(self).phase, action) == state_next(old(self).phase, status),
    {
        match self.phase {
            StatePhase::Registering => match status.as_either() {
                Ok(()) => {
                    self.phase = StatePhase::Capturing;
                    StateAction::CaptureProviderNpi { wait_timeout: WSK_NO_WAIT }
                },
                Err(e) => {
                    self.phase = StatePhase::Finished(Err(e));
                    StateAction::Finish(Err(e))
                },
            },
            StatePhase::Capturing => {
                let r = status.as_either();
                self.phase = StatePhase::Finished(r);
                StateAction::Finish(r)
            },
            StatePhase::Finished(r) => StateAction::Finish(r),
        }
    }

    /// Whether the provider interface is captured and sockets can be made.
    pub fn is_ready(&self) -> (ready: bool)
        ensures
            ready == (self.phase matches StatePhase::Finished(Ok(_))),
    {
        match self.phase {
            StatePhase::Finished(Ok(())) => true,
            _ => false,
        }
    }

    /// What releasing the registration does, in order: the provider
    /// interface is released, then the client deregisters. Both happen
    /// whatever the outcome of setting up was.
    pub fn drop_actions(&self) -> (actions: Vec<StateAction>)
        ensures
            actions@ == seq![StateAction::ReleaseProviderNpi, StateAction::Deregister],
    {
        let mut actions: Vec<StateAction> = Vec::new();
        actions.push(StateAction::ReleaseProviderNpi);
        actions.push(StateAction::Deregister);
        actions
    }
}

/// Setting up registers, captures the provider interface without waiting
/// only when the registration succeeded, and ends with the first failure,
/// or with success.
pub proof fn lemma_setup_sequence(register: NtStatus, capture: NtStatus)
    ensures
        state_next(StatePhase::Registering, register).1 == (if register == STATUS_SUCCESS {
            StateAction::CaptureProviderNpi { wait_timeout: WSK_NO_WAIT }
        } else {
            StateAction::Finish(Err(register))
        }),
        register == STATUS_SUCCESS ==> state_next(
            state_next(StatePhase::Registering, register).0,
            capture,
        ).1 == StateAction::Finish(setup_outcome(register, capture)),
        register != STATUS_SUCCESS ==> StateAction::Finish(setup_outcome(register, capture))
            == state_next(StatePhase::Registering, register).1,
{
}

} // verus!
