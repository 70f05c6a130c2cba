use vstd::prelude::*;

verus! {

/// The status code that every kernel routine hands back (`NTSTATUS`).
pub type NtStatus = i32;

/// The operation completed successfully.
pub const STATUS_SUCCESS: NtStatus = 0;

/// The operation was started and completes later; its completion is signalled.
pub const STATUS_PENDING: NtStatus = 259;

/// The requested operation was unsuccessful (`0xC0000001`).
pub const STATUS_UNSUCCESSFUL: NtStatus = -1073741823;

/// The end of the data was reached (`0xC0000011`).
pub const STATUS_END_OF_FILE: NtStatus = -1073741807;

/// A completion routine keeps ownership of the request (`0xC0000016`).
pub const STATUS_MORE_PROCESSING_REQUIRED: NtStatus = -1073741802;

/// An invalid parameter was passed (`0xC000000D`).
pub const STATUS_INVALID_PARAMETER: NtStatus = -1073741811;

/// Not enough system resources to complete the request (`0xC000009A`).
pub const STATUS_INSUFFICIENT_RESOURCES: NtStatus = -1073741670;

/// The object was not found (`0xC0000225`).
pub const STATUS_NOT_FOUND: NtStatus = -1073741275;

/// The domain was in the wrong state for the operation (`0xC00000DD`).
pub const STATUS_INVALID_DOMAIN_STATE: NtStatus = -1073741603;

/// The message could not be understood (`0xC0000702`).
pub const STATUS_INVALID_MESSAGE: NtStatus = -1073740030;

/// A status read as an outcome: success gives `Ok(())`, every other status is
/// the error itself.
pub open spec fn status_outcome(status: NtStatus) -> Result<(), NtStatus> {
    if status == STATUS_SUCCESS {
        Ok(())
    } else {
        Err(status)
    }
}

/// Values that tell success from failure.
pub trait ErrorLike: Sized {
    /// `Ok(())` on success, otherwise the value itself as the error.
    fn as_either(&self) -> Result<(), Self>;
}

impl ErrorLike for NtStatus {
    fn as_either(&self) -> (r: Result<(), NtStatus>)
        ensures
            r == status_outcome(*self),
    {
        if *self == STATUS_SUCCESS {
            Ok(())
        } else {
            Err(*self)
        }
    }
}

/// Only the success status reads as success, and a failure keeps the status
/// it came from.
pub proof fn lemma_status_outcome(status: NtStatus)
    ensures
        status_outcome(status) is Ok <==> status == STATUS_SUCCESS,
        status_outcome(status) matches Err(e) ==> e == status,
{
}

} // verus!
