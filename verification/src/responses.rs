//! Response envelopes the transport layer wraps core results in.  The
//! transport keeps serializable copies of these; the core states only what
//! the fields hold.

use vstd::prelude::*;

verus! {

/// Envelope of a successful response.
pub struct ApiResponse<T> {
    pub success: bool,
    pub message: String,
    pub data: T,
}

/// Body of a successful login.
pub struct LoginResponse {
    pub access_token: String,
    pub refresh_token: String,
}

/// Envelope of a failed response.
pub struct ErrResponse<E> {
    pub success: bool,
    pub message: String,
    pub error: E,
}

/// A bare error message.
pub struct ErrMessage {
    pub message: String,
}

} // verus!
