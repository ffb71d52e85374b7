//! EFI status codes, errors and GUIDs.

use vstd::prelude::*;

use crate::le;

verus! {

/// The status of a call that succeeded.
pub const SUCCESS: usize = 0;

/// The bit that marks a status as an error: the topmost one of the machine word.
pub const ERROR_BIT: usize = usize::MAX / 2 + 1;

/// A parameter was incorrect.
pub const INVALID_PARAMETER: usize = ERROR_BIT + 2;

/// The buffer was not the proper size for the request.
pub const BAD_BUFFER_SIZE: usize = ERROR_BIT + 4;

/// The device cannot be written to.
pub const WRITE_PROTECTED: usize = ERROR_BIT + 8;

/// The resource has run out.
pub const OUT_OF_RESOURCES: usize = ERROR_BIT + 9;

/// The medium in the device has changed since the last access.
pub const MEDIA_CHANGED: usize = ERROR_BIT + 13;

/// The item was not found.
pub const NOT_FOUND: usize = ERROR_BIT + 14;

/// The error of a firmware call, by its status code.
#[derive(Debug, Clone, Copy, PartialEq, Eq, Structural)]
pub struct EfiError {
    pub status: usize,
}

/// What a call that ended in `status` returns: nothing on success, else the error
/// with that status.
pub open spec fn result_of(status: usize) -> Result<(), EfiError> {
    if status == SUCCESS {
        Ok(())
    } else {
        Err(EfiError { status })
    }
}

/// Calls `patina::error::EfiError::status_to_result` and names the error by its own
/// status code (`From<EfiError>` for the status type). A success gives `None`; every
/// other status comes back as it went in, because each error of that type stands for
/// exactly one status and a status it has no name for is carried along.
#[verifier::external_body]
fn error_status(status: usize) -> (error: Option<usize>)
    ensures
        error == (if status == SUCCESS { None } else { Some(status) }),
{
    patina::error::EfiError::status_to_result(r_efi::efi::Status::from_usize(status))
        .err()
        .map(|e| r_efi::efi::Status::from(e).as_usize())
}

impl EfiError {
    /// Converts the status of a call to its result.
    pub fn status_to_result(status: usize) -> (result: Result<(), EfiError>)
        ensures
            result == result_of(status),
    {
        match error_status(status) {
            None => Ok(()),
            Some(status) => Err(EfiError { status }),
        }
    }
}

/// A globally unique identifier by the fields in which UEFI writes it.
#[derive(Debug, Clone, Copy)]
pub struct Guid {
    pub time_low: u32,
    pub time_mid: u16,
    pub time_hi_and_version: u16,
    pub clk_seq_hi_res: u8,
    pub clk_seq_low: u8,
    pub node: [u8; 6],
}

impl Guid {
    /// The identifier's sixteen bytes in memory: the first three fields little-endian,
    /// the rest in order.
    pub open spec fn spec_bytes(self) -> Seq<u8> {
        le::bytes32(self.time_low) + le::bytes16(self.time_mid) + le::bytes16(
            self.time_hi_and_version,
        ) + seq![self.clk_seq_hi_res, self.clk_seq_low] + self.node@
    }

    /// Calls `r_efi::efi::Guid::from_fields` and `r_efi::efi::Guid::as_bytes`: the
    /// fields in UEFI's byte order.
    #[verifier::external_body]
    pub(crate) fn as_bytes(&self) -> (bytes: [u8; 16])
        ensures
            bytes@ == self.spec_bytes(),
    {
        *r_efi::efi::Guid::from_fields(
            self.time_low,
            self.time_mid,
            self.time_hi_and_version,
            self.clk_seq_hi_res,
            self.clk_seq_low,
            &self.node,
        )
        .as_bytes()
    }
}

/// A call fails with its own status, and only a status of zero is a success; the error
/// statuses are those of the UEFI headers, with the topmost bit of the machine word set.
pub proof fn law_every_other_status_is_its_own_error(status: usize)
    ensures
        result_of(0) == Ok::<(), EfiError>(()),
        status != 0 ==> result_of(status) == Err::<(), EfiError>(EfiError { status }),
        ERROR_BIT == usize::MAX - usize::MAX / 2,
        INVALID_PARAMETER == ERROR_BIT + 2,
        BAD_BUFFER_SIZE == ERROR_BIT + 4,
        WRITE_PROTECTED == ERROR_BIT + 8,
        OUT_OF_RESOURCES == ERROR_BIT + 9,
        MEDIA_CHANGED == ERROR_BIT + 13,
        NOT_FOUND == ERROR_BIT + 14,
{
}

} // verus!
