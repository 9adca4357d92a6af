//! Plain response values of the HTTP surface around the engine.
//!
//! The transport layer turns these into wire responses; here they are bare
//! data with the tag conventions pinned by the constructors.

use vstd::prelude::*;

verus! {

/// The response to a successful login: a session token.
pub struct LoginResponse {
    pub msg_type: String,
    pub token: String,
}

impl LoginResponse {
    /// A login response is always tagged `login`.
    pub fn new(token: String) -> (r: Self)
        ensures
            r.msg_type@ == "login"@,
            r.token@ == token@,
    {
        LoginResponse { msg_type: "login".to_owned(), token }
    }
}

/// The response to a successful account creation.
pub struct SignupResponse {
    pub msg_type: String,
    pub message: String,
}

impl SignupResponse {
    /// A signup response is always tagged `success`.
    pub fn new(message: String) -> (r: Self)
        ensures
            r.msg_type@ == "success"@,
            r.message@ == message@,
    {
        SignupResponse { msg_type: "success".to_owned(), message }
    }
}

/// The response to a history query: one identity's full transcript, in
/// append order.
pub struct HistoryResponse {
    pub msg_type: String,
    pub messages: Vec<String>,
}

impl HistoryResponse {
    /// A history response is always tagged `history` and carries the
    /// transcript unchanged.
    pub fn new(messages: Vec<String>) -> (r: Self)
        ensures
            r.msg_type@ == "history"@,
            r.messages.deep_view() == messages.deep_view(),
    {
        HistoryResponse { msg_type: "history".to_owned(), messages }
    }
}

} // verus!
