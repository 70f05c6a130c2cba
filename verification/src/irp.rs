use vstd::prelude::*;

use crate::status::{NtStatus, STATUS_SUCCESS};

verus! {

/// Call the completion routine when the request succeeds.
pub const SL_INVOKE_ON_SUCCESS: u8 = 0x40;

/// Call the completion routine when the request fails.
pub const SL_INVOKE_ON_ERROR: u8 = 0x80;

/// Call the completion routine when the request is cancelled.
pub const SL_INVOKE_ON_CANCEL: u8 = 0x20;

/// The part of an I/O stack location that completion handling reads.
#[derive(Clone, Copy)]
pub struct IoStackLocation {
    /// Address of the completion routine, if one is installed.
    pub completion_routine: Option<usize>,
    /// Context value handed to the completion routine.
    pub context: usize,
    /// `SL_INVOKE_ON_*` flags.
    pub control: u8,
}

/// Final status of a request and its request-specific information.
#[derive(Clone, Copy)]
pub struct IoStatusBlock {
    pub status: NtStatus,
    pub information: usize,
}

/// An I/O request packet: its stack of locations, the index of the current
/// location and its status block.
///
/// A freshly set up packet has its current location one past the last
/// stack location, so that the next location is the last one.
pub struct Irp {
    pub stack: Vec<IoStackLocation>,
    pub current_location: usize,
    pub io_status: IoStatusBlock,
}

/// The ghost image of an [`Irp`].
pub struct IrpView {
    pub stack: Seq<IoStackLocation>,
    pub current_location: usize,
    pub io_status: IoStatusBlock,
}

impl View for Irp {
    type V = IrpView;

    open spec fn view(&self) -> IrpView {
        IrpView { stack: self.stack@, current_location: self.current_location, io_status: self.io_status }
    }
}

/// A stack location with nothing installed in it.
pub open spec fn empty_location() -> IoStackLocation {
    IoStackLocation { completion_routine: None, context: 0, control: 0 }
}

/// A packet with `stack_size` empty locations, its current location past the
/// last one, and the given status with no information.
pub open spec fn initialized_irp(stack_size: nat, status: NtStatus) -> IrpView {
    IrpView {
        stack: Seq::new(stack_size, |i: int| empty_location()),
        current_location: stack_size as usize,
        io_status: IoStatusBlock { status, information: 0 },
    }
}

/// The control byte for the three invoke flags.
pub open spec fn spec_completion_control(on_success: bool, on_error: bool, on_cancel: bool) -> u8 {
    ((if on_success { SL_INVOKE_ON_SUCCESS } else { 0u8 }) | (if on_error {
        SL_INVOKE_ON_ERROR
    } else {
        0u8
    })) | (if on_cancel { SL_INVOKE_ON_CANCEL } else { 0u8 })
}

/// The packet after a completion routine is installed in its next stack
/// location; nothing else changes.
pub open spec fn with_completion_routine(
    irp: IrpView,
    routine: Option<usize>,
    context: usize,
    on_success: bool,
    on_error: bool,
    on_cancel: bool,
) -> IrpView {
    IrpView {
        stack: irp.stack.update(
            irp.current_location - 1,
            IoStackLocation {
                completion_routine: routine,
                context,
                control: spec_completion_control(on_success, on_error, on_cancel),
            },
        ),
        ..irp
    }
}

/// The control byte that `IoSetCompletionRoutine` stores for the three flags.
pub fn completion_control(on_success: bool, on_error: bool, on_cancel: bool) -> (control: u8)
    ensures
        control == spec_completion_control(on_success, on_error, on_cancel),
{
    let mut control: u8 = 0;
    if on_success {
        control = SL_INVOKE_ON_SUCCESS;
    }
    if on_error {
        control |= SL_INVOKE_ON_ERROR;
    }
    if on_cancel {
        control |= SL_INVOKE_ON_CANCEL;
    }
    proof {
        let c0: u8 = if on_success { SL_INVOKE_ON_SUCCESS } else { 0u8 };
        assert(c0 | 0u8 == c0) by (bit_vector);
        let c1: u8 = c0 | (if on_error { SL_INVOKE_ON_ERROR } else { 0u8 });
        assert(c1 | 0u8 == c1) by (bit_vector);
    }
    control
}

/// Each invoke flag can be read back from the control byte, and no other bit
/// is ever set.
pub proof fn lemma_completion_control_flags(on_success: bool, on_error: bool, on_cancel: bool)
    ensures
        (spec_completion_control(on_success, on_error, on_cancel) & SL_INVOKE_ON_SUCCESS != 0)
            == on_success,
        (spec_completion_control(on_success, on_error, on_cancel) & SL_INVOKE_ON_ERROR != 0)
            == on_error,
        (spec_completion_control(on_success, on_error, on_cancel) & SL_INVOKE_ON_CANCEL != 0)
            == on_cancel,
        spec_completion_control(on_success, on_error, on_cancel) & 0x1fu8 == 0,
{
    let s: u8 = if on_success { 0x40u8 } else { 0u8 };
    let e: u8 = if on_error { 0x80u8 } else { 0u8 };
    let c: u8 = if on_cancel { 0x20u8 } else { 0u8 };
    assert(((s | e) | c) & 0x40u8 != 0 <==> s != 0) by (bit_vector)
        requires
            s == 0 || s == 0x40,
            e == 0 || e == 0x80,
            c == 0 || c == 0x20,
    ;
    assert(((s | e) | c) & 0x80u8 != 0 <==> e != 0) by (bit_vector)
        requires
            s == 0 || s == 0x40,
            e == 0 || e == 0x80,
            c == 0 || c == 0x20,
    ;
    assert(((s | e) | c) & 0x20u8 != 0 <==> c != 0) by (bit_vector)
        requires
            s == 0 || s == 0x40,
            e == 0 || e == 0x80,
            c == 0 || c == 0x20,
    ;
    assert(((s | e) | c) & 0x1fu8 == 0) by (bit_vector)
        requires
            s == 0 || s == 0x40,
            e == 0 || e == 0x80,
            c == 0 || c == 0x20,
    ;
}

impl Irp {
    /// A packet with `stack_size` stack locations, as the kernel sets one up:
    /// every location empty, the current location past the last one, and a
    /// zero status block.
    pub fn new(stack_size: usize) -> (irp: Irp)
        ensures
            irp@ == initialized_irp(stack_size as nat, STATUS_SUCCESS),
    {
        let mut stack: Vec<IoStackLocation> = Vec::new();
        let mut i: usize = 0;
        while i < stack_size
            invariant
                i <= stack_size,
                stack@ =~= Seq::new(i as nat, |k: int| empty_location()),
            decreases stack_size - i,
        {
            stack.push(IoStackLocation { completion_routine: None, context: 0, control: 0 });
            i = i + 1;
        }
        Irp {
            stack,
            current_location: stack_size,
            io_status: IoStatusBlock { status: STATUS_SUCCESS, information: 0 },
        }
    }

    /// Sets the packet up again for another request, as `IoReuseIrp` does:
    /// the locations are emptied, the current location moves past the last
    /// one, and the status block holds `status` with no information.
    pub fn reuse(&mut self, status: NtStatus)
        ensures
            final(self)@ == initialized_irp(old(self).stack@.len(), status),
    {
        let n = self.stack.len();
        let mut i: usize = 0;
        while i < n
            invariant
                n == self.stack@.len(),
                i <= n,
                forall|k: int| 0 <= k < i ==> #[trigger] self.stack@[k] == empty_location(),
            decreases n - i,
        {
            self.stack.set(i, IoStackLocation { completion_routine: None, context: 0, control: 0 });
            i = i + 1;
        }
        self.current_location = n;
        self.io_status = IoStatusBlock { status, information: 0 };
        assert(self.stack@ =~= Seq::new(n as nat, |k: int| empty_location()));
    }
}

/// The index of the packet's current stack location.
#[allow(non_snake_case)]
pub fn IoGetCurrentIrpStackLocation(irp: &Irp) -> (location: usize)
    ensures
        location == irp.current_location,
{
    irp.current_location
}

/// The index of the stack location that the next driver down uses: the one
/// just before the current location.
#[allow(non_snake_case)]
pub fn IoGetNextIrpStackLocation(irp: &Irp) -> (location: usize)
    requires
        irp.current_location >= 1,
    ensures
        location == irp.current_location - 1,
{
    IoGetCurrentIrpStackLocation(irp) - 1
}

/// Installs a completion routine and its context in the next stack location,
/// with the control flags for the three invoke conditions.
#[allow(non_snake_case)]
pub fn IoSetCompletionRoutine(
    irp: &mut Irp,
    completion_routine: Option<usize>,
    context: usize,
    invoke_on_success: bool,
    invoke_on_error: bool,
    invoke_on_cancel: bool,
)
    requires
        1 <= old(irp).current_location <= old(irp).stack@.len(),
    ensures
        final(irp)@ == with_completion_routine(
            old(irp)@,
            completion_routine,
            context,
            invoke_on_success,
            invoke_on_error,
            invoke_on_cancel,
        ),
{
    let irp_sp = IoGetNextIrpStackLocation(irp);
    let control = completion_control(invoke_on_success, invoke_on_error, invoke_on_cancel);
    irp.stack.set(irp_sp, IoStackLocation { completion_routine, context, control });
}

} // verus!
