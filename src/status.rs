use vstd::prelude::*;

verus! {

/// The top bit of a status code, which marks an error.
pub const ERROR_BIT: usize = usize::MAX / 2 + 1;

/// The code of a call that succeeded.
pub const SUCCESS: usize = 0;

/// The code of a request whose arguments were rejected.
pub const INVALID_PARAMETER: usize = ERROR_BIT + 2;

/// The code of a size that does not fit the buffer it describes.
pub const BAD_BUFFER_SIZE: usize = ERROR_BIT + 4;

/// The code of a buffer that cannot hold the result.
pub const BUFFER_TOO_SMALL: usize = ERROR_BIT + 5;

/// The code of a record that does not exist, or of the end of a listing.
pub const NOT_FOUND: usize = ERROR_BIT + 14;

/// A raw firmware status code.
#[derive(Clone, Copy, Debug, PartialEq, Eq, Structural)]
pub struct Status {
    pub code: usize,
}

impl Status {
    /// Whether the code lies in the error class: its two top bits read
    /// `10`, that is, it lies in the lower half of the codes from the top
    /// bit up.
    pub open spec fn is_error_spec(self) -> bool {
        ERROR_BIT <= self.code && self.code - ERROR_BIT < ERROR_BIT / 2
    }

    /// The status with code `v`.
    pub fn from_usize(v: usize) -> (r: Status)
        ensures
            r.code == v,
    {
        Status { code: v }
    }

    /// The numeric code.
    pub fn as_usize(&self) -> (r: usize)
        ensures
            r == self.code,
    {
        self.code
    }

    /// Whether the code is an error: its two top bits read `10`. Warnings
    /// (top bits `00`, code not zero) count as success.
    pub fn is_error(&self) -> (r: bool)
        ensures
            r == self.is_error_spec(),
    {
        ERROR_BIT <= self.code && self.code - ERROR_BIT < ERROR_BIT / 2
    }
}

/// What one raw read of a variable reported.
#[derive(Clone, Copy, Debug, PartialEq, Eq, Structural)]
pub enum GetVariableStatus {
    /// The value fit; `data_size` bytes of the buffer hold it.
    Success { data_size: usize, attributes: u32 },
    /// The buffer was too small; the value needs `data_size` bytes.
    BufferTooSmall { data_size: usize, attributes: u32 },
    /// Any other failure.
    Error(Status),
}

/// Storage figures for one combination of attribute flags.
#[derive(Clone, Copy, Debug, PartialEq, Eq, Structural)]
pub struct VariableInfo {
    pub maximum_variable_storage_size: u64,
    pub remaining_variable_storage_size: u64,
    pub maximum_variable_size: u64,
}

/// Sorts the status of a raw read into the three cases the read protocol
/// tells apart.
pub open spec fn classify_read_spec(status: Status, data_size: usize, attributes: u32) -> GetVariableStatus {
    if status.code == BUFFER_TOO_SMALL {
        GetVariableStatus::BufferTooSmall { data_size, attributes }
    } else if status.is_error_spec() {
        GetVariableStatus::Error(status)
    } else {
        GetVariableStatus::Success { data_size, attributes }
    }
}

/// Sorts a raw read's answer: its status, reported size and attributes.
pub open spec fn classify_reply(reply: (Status, usize, u32)) -> GetVariableStatus {
    classify_read_spec(reply.0, reply.1, reply.2)
}

/// Sorts the status of a raw read.
pub fn classify_read(status: Status, data_size: usize, attributes: u32) -> (r: GetVariableStatus)
    ensures
        r == classify_read_spec(status, data_size, attributes),
{
    if status.code == BUFFER_TOO_SMALL {
        GetVariableStatus::BufferTooSmall { data_size, attributes }
    } else if status.is_error() {
        GetVariableStatus::Error(status)
    } else {
        GetVariableStatus::Success { data_size, attributes }
    }
}

/// The result of a write whose call answered `status`: warnings count as
/// success.
pub open spec fn write_result(status: Status) -> Result<(), Status> {
    if status.is_error_spec() {
        Err(status)
    } else {
        Ok(())
    }
}

} // verus!
