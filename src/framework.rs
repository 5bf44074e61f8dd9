//! What every request shares: credentials, the endpoint contract, and the
//! reading of responses.

pub mod auth;
pub mod endpoint;
pub mod response;
