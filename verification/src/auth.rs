//! The two bodies exchanged with the authentication endpoint, by the names
//! of their direction: what is sent, and what comes back when the login
//! succeeds.

pub use crate::model::auth::AuthRequestBody;
use crate::model::auth::AuthSuccessBody;
use vstd::prelude::*;

verus! {

/// The response body returned by iRacing when authentication succeeds.
pub type AuthResponseBody = AuthSuccessBody;

} // verus!
