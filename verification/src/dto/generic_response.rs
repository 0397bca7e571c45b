use vstd::prelude::*;

verus! {

/// Whether a response reports success or an error.
#[derive(Debug, Clone, Copy, PartialEq, Eq, Structural)]
pub enum Status {
    Success,
    Error,
}

/// The envelope every JSON endpoint answers with.
#[derive(Debug)]
pub struct GenericResponse<T> {
    pub status: Status,
    pub message: String,
    pub data: Option<T>,
}

impl<T> GenericResponse<T> {
    /// Wraps a payload for sending.
    pub fn new(status: Status, message: String, data: Option<T>) -> (r: Self)
        ensures
            r.status == status,
            r.message == message,
            r.data == data,
    {
        GenericResponse { status, message, data }
    }
}

} // verus!
