//! The errors of the foreign interface, and the numbers under which they
//! cross it.

use vstd::prelude::*;

verus! {

/// The highest number that stands for an error of the core.
pub const CORE_ERROR_START_RANGE: i32 = -1;

/// The highest number that stands for an error of the foreign interface.
pub const FFI_ERROR_START_RANGE: i32 = CORE_ERROR_START_RANGE - 1000;

/// An error of the foreign interface. Where the error came from elsewhere,
/// the variant holds its description.
#[derive(Clone, Debug, PartialEq, Eq)]
pub enum FfiError {
    /// An error of the core.
    CoreError(String),
    /// Unable to find or traverse a directory or file path.
    PathNotFound,
    /// The path supplied was invalid.
    InvalidPath,
    /// Permission denied.
    PermissionDenied,
    /// Unable to read from or write to a local configuration file.
    LocalConfigAccessFailed(String),
    /// Unexpected: probably a logic error.
    Unexpected(String),
    /// Data could not be serialised or deserialised.
    UnsuccessfulEncodeDecode(String),
    /// A string could not be nul-terminated because it holds a nul.
    NulError(String),
    /// Invalid app handle.
    InvalidAppHandle,
    /// Invalid handle of entries of a mutable record.
    InvalidMDataEntriesHandle,
    /// Invalid handle of entry actions of a mutable record.
    InvalidMDataEntryActionsHandle,
    /// Invalid handle of a name.
    InvalidXorNameHandle,
    /// Invalid handle of a self-encryptor.
    InvalidSelfEncryptorHandle,
    /// Invalid handle of a cipher option.
    InvalidCipherOptHandle,
    /// Invalid handle of an encryption key.
    InvalidEncryptKeyHandle,
    /// Invalid handle of a signing key.
    InvalidSignKeyHandle,
    /// The operation is forbidden for the app.
    OperationForbiddenForApp,
    /// Invalid version number.
    InvalidVersionNumber,
    /// Invalid offsets for reading from a self-encryptor.
    InvalidSelfEncryptorReadOffsets,
    /// Invalid index.
    InvalidIndex,
    /// Unsupported operation.
    UnsupportedOperation,
    /// An error of input or output.
    IoError(String),
}

impl FfiError {
    /// How far below the start of the range the number of the error lies.
    pub open spec fn spec_offset(&self) -> int {
        match self {
            FfiError::CoreError(_) => 0,
            FfiError::PathNotFound => 1,
            FfiError::InvalidPath => 2,
            FfiError::PermissionDenied => 3,
            FfiError::LocalConfigAccessFailed(_) => 8,
            FfiError::Unexpected(_) => 9,
            FfiError::UnsuccessfulEncodeDecode(_) => 10,
            FfiError::NulError(_) => 11,
            FfiError::InvalidXorNameHandle => 13,
            FfiError::InvalidSelfEncryptorHandle => 15,
            FfiError::InvalidCipherOptHandle => 16,
            FfiError::InvalidEncryptKeyHandle => 17,
            FfiError::InvalidSignKeyHandle => 18,
            FfiError::OperationForbiddenForApp => 19,
            FfiError::InvalidVersionNumber => 21,
            FfiError::InvalidSelfEncryptorReadOffsets => 22,
            FfiError::InvalidIndex => 23,
            FfiError::UnsupportedOperation => 24,
            FfiError::IoError(_) => 25,
            FfiError::InvalidAppHandle => 26,
            FfiError::InvalidMDataEntriesHandle => 27,
            FfiError::InvalidMDataEntryActionsHandle => 28,
        }
    }

    /// The number under which the error crosses the interface.
    pub open spec fn spec_code(&self) -> int {
        FFI_ERROR_START_RANGE - self.spec_offset()
    }

    /// The number under which the error crosses the interface. Every error of
    /// the core has the number at the start of the range.
    pub fn code(&self) -> (code: i32)
        ensures
            code == self.spec_code(),
            FFI_ERROR_START_RANGE - 28 <= code <= FFI_ERROR_START_RANGE,
    {
        match self {
            FfiError::CoreError(_) => FFI_ERROR_START_RANGE,
            FfiError::PathNotFound => FFI_ERROR_START_RANGE - 1,
            FfiError::InvalidPath => FFI_ERROR_START_RANGE - 2,
            FfiError::PermissionDenied => FFI_ERROR_START_RANGE - 3,
            FfiError::LocalConfigAccessFailed(_) => FFI_ERROR_START_RANGE - 8,
            FfiError::Unexpected(_) => FFI_ERROR_START_RANGE - 9,
            FfiError::UnsuccessfulEncodeDecode(_) => FFI_ERROR_START_RANGE - 10,
            FfiError::NulError(_) => FFI_ERROR_START_RANGE - 11,
            FfiError::InvalidAppHandle => FFI_ERROR_START_RANGE - 26,
            FfiError::InvalidMDataEntriesHandle => FFI_ERROR_START_RANGE - 27,
            FfiError::InvalidMDataEntryActionsHandle => FFI_ERROR_START_RANGE - 28,
            FfiError::InvalidXorNameHandle => FFI_ERROR_START_RANGE - 13,
            FfiError::InvalidSelfEncryptorHandle => FFI_ERROR_START_RANGE - 15,
            FfiError::InvalidCipherOptHandle => FFI_ERROR_START_RANGE - 16,
            FfiError::InvalidEncryptKeyHandle => FFI_ERROR_START_RANGE - 17,
            FfiError::InvalidSignKeyHandle => FFI_ERROR_START_RANGE - 18,
            FfiError::OperationForbiddenForApp => FFI_ERROR_START_RANGE - 19,
            FfiError::InvalidVersionNumber => FFI_ERROR_START_RANGE - 21,
            FfiError::InvalidSelfEncryptorReadOffsets => FFI_ERROR_START_RANGE - 22,
            FfiError::InvalidIndex => FFI_ERROR_START_RANGE - 23,
            FfiError::UnsupportedOperation => FFI_ERROR_START_RANGE - 24,
            FfiError::IoError(_) => FFI_ERROR_START_RANGE - 25,
        }
    }

    /// The error that says that something unexpected happened, with its
    /// description.
    pub fn unexpected(description: &str) -> (error: FfiError)
        ensures
            error matches FfiError::Unexpected(text) && text@ == description@,
    {
        FfiError::Unexpected(description.to_string())
    }
}

/// The number that tells the other side how a call ended: 0 where it
/// succeeded, else the number of the error.
pub fn result_code(res: &Result<(), FfiError>) -> (code: i32)
    ensures
        code == (match res {
            Ok(()) => 0,
            Err(error) => error.spec_code(),
        }),
{
    match res {
        Ok(()) => 0,
        Err(error) => error.code(),
    }
}

} // verus!
