//! Outcome codes shared by every protocol call.

use vstd::prelude::*;

verus! {

/// Flat set of result codes returned by the writer protocol.
///
/// Resolution errors report that the backend could not be located, loaded
/// or versioned; `InvalidArgument` reports a capability the negotiated
/// table does not provide; `Failed` covers backend-reported failures and
/// internal inconsistencies such as a success paired with a null handle.
#[derive(Clone, Copy, PartialEq, Eq, Structural, Debug)]
pub enum ResultCode {
    Success,
    Failed,
    InvalidArgument,
    InvalidInitMode,
    LibraryNotFound,
    ConfigNotFound,
    LoaderSymbolMissing,
    LoaderFailed,
    InterfaceIdNotSupported,
    ConfigMissingLoaderInfo,
    UnsupportedLoaderMode,
    EnvVarNotFound,
}

impl ResultCode {
    /// Integer value of this code at the binary interface boundary.
    pub open spec fn wire_spec(self) -> int {
        match self {
            ResultCode::Success => 0,
            ResultCode::Failed => 1,
            ResultCode::InvalidArgument => 2,
            ResultCode::InvalidInitMode => 3,
            ResultCode::LibraryNotFound => 4,
            ResultCode::ConfigNotFound => 5,
            ResultCode::LoaderSymbolMissing => 6,
            ResultCode::LoaderFailed => 7,
            ResultCode::InterfaceIdNotSupported => 8,
            ResultCode::ConfigMissingLoaderInfo => 9,
            ResultCode::UnsupportedLoaderMode => 10,
            ResultCode::EnvVarNotFound => 11,
        }
    }

    /// The code that corresponds to an integer at the boundary, if any.
    pub open spec fn from_wire_spec(code: int) -> Option<ResultCode> {
        if code == 0 {
            Some(ResultCode::Success)
        } else if code == 1 {
            Some(ResultCode::Failed)
        } else if code == 2 {
            Some(ResultCode::InvalidArgument)
        } else if code == 3 {
            Some(ResultCode::InvalidInitMode)
        } else if code == 4 {
            Some(ResultCode::LibraryNotFound)
        } else if code == 5 {
            Some(ResultCode::ConfigNotFound)
        } else if code == 6 {
            Some(ResultCode::LoaderSymbolMissing)
        } else if code == 7 {
            Some(ResultCode::LoaderFailed)
        } else if code == 8 {
            Some(ResultCode::InterfaceIdNotSupported)
        } else if code == 9 {
            Some(ResultCode::ConfigMissingLoaderInfo)
        } else if code == 10 {
            Some(ResultCode::UnsupportedLoaderMode)
        } else if code == 11 {
            Some(ResultCode::EnvVarNotFound)
        } else {
            None
        }
    }

    /// Encode this code for the boundary.
    pub fn wire(self) -> (r: i32)
        ensures
            r as int == self.wire_spec(),
    {
        match self {
            ResultCode::Success => 0,
            ResultCode::Failed => 1,
            ResultCode::InvalidArgument => 2,
            ResultCode::InvalidInitMode => 3,
            ResultCode::LibraryNotFound => 4,
            ResultCode::ConfigNotFound => 5,
            ResultCode::LoaderSymbolMissing => 6,
            ResultCode::LoaderFailed => 7,
            ResultCode::InterfaceIdNotSupported => 8,
            ResultCode::ConfigMissingLoaderInfo => 9,
            ResultCode::UnsupportedLoaderMode => 10,
            ResultCode::EnvVarNotFound => 11,
        }
    }

    /// Decode a boundary integer; unknown values yield nothing.
    pub fn from_wire(code: i32) -> (r: Option<ResultCode>)
        ensures
            r == ResultCode::from_wire_spec(code as int),
    {
        if code == 0 {
            Some(ResultCode::Success)
        } else if code == 1 {
            Some(ResultCode::Failed)
        } else if code == 2 {
            Some(ResultCode::InvalidArgument)
        } else if code == 3 {
            Some(ResultCode::InvalidInitMode)
        } else if code == 4 {
            Some(ResultCode::LibraryNotFound)
        } else if code == 5 {
            Some(ResultCode::ConfigNotFound)
        } else if code == 6 {
            Some(ResultCode::LoaderSymbolMissing)
        } else if code == 7 {
            Some(ResultCode::LoaderFailed)
        } else if code == 8 {
            Some(ResultCode::InterfaceIdNotSupported)
        } else if code == 9 {
            Some(ResultCode::ConfigMissingLoaderInfo)
        } else if code == 10 {
            Some(ResultCode::UnsupportedLoaderMode)
        } else if code == 11 {
            Some(ResultCode::EnvVarNotFound)
        } else {
            None
        }
    }
}

/// Turn a protocol result code into a `Result`, keeping any failure code.
pub fn check(result: ResultCode) -> (r: Result<(), ResultCode>)
    ensures
        r == (if result == ResultCode::Success {
            Result::<(), ResultCode>::Ok(())
        } else {
            Result::<(), ResultCode>::Err(result)
        }),
{
    if result == ResultCode::Success {
        Ok(())
    } else {
        Err(result)
    }
}

} // verus!
