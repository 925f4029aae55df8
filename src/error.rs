use vstd::prelude::*;

use crate::handle::NativeHandle;

verus! {

/// What can go wrong when the native runtime is asked to do something.
#[derive(Debug, Clone, PartialEq, Eq)]
pub enum Error {
    /// The native allocator handed back no object.
    AllocationFailed { operation: String },
    /// The path or identifier names nothing that the runtime knows.
    NotFound { path: String },
    /// An argument that the native call cannot take as it is.
    InvalidArgument { detail: String },
    /// The runtime reported a failure in its own words.
    NativeReported { message: String },
}

/// The pointer sentinel: a null handle means that nothing was allocated.
pub fn check_handle(raw: u64, operation: &str) -> (r: Result<NativeHandle, Error>)
    ensures
        raw == 0 ==> (r matches Err(Error::AllocationFailed { operation: op }) && op@ == operation@),
        raw != 0 ==> (r matches Ok(h) && h@ == raw),
{
    if raw == 0 {
        Err(Error::AllocationFailed { operation: operation.to_owned() })
    } else {
        Ok(NativeHandle::from_raw(raw))
    }
}

/// What the runtime's message becomes when it left none.
pub open spec fn message_text(message: Option<String>) -> Seq<char> {
    match message {
        Some(m) => m@,
        None => Seq::empty(),
    }
}

/// The status sentinel: `-1` means failure, with the runtime's message where it
/// gave one; any other status is handed back as it came.
pub fn check_status(status: i32, message: Option<String>) -> (r: Result<i32, Error>)
    ensures
        status == -1 ==> (r matches Err(Error::NativeReported { message: m }) && m@
            == message_text(message)),
        status != -1 ==> r == Ok::<i32, Error>(status),
{
    if status == -1 {
        let m = match message {
            Some(m) => m,
            None => String::new(),
        };
        Err(Error::NativeReported { message: m })
    } else {
        Ok(status)
    }
}

/// The message sentinel: a message from the runtime means failure, whatever
/// else the call returned.
pub fn check_message<T>(value: T, message: Option<String>) -> (r: Result<T, Error>)
    ensures
        message matches Some(m) ==> (r matches Err(Error::NativeReported { message: e })
            && e@ == m@),
        message is None ==> (r matches Ok(v) && v == value),
{
    match message {
        Some(m) => Err(Error::NativeReported { message: m }),
        None => Ok(value),
    }
}

} // verus!
