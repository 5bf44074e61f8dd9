//! A typed client for the Heroku platform API: one descriptor per endpoint,
//! bearer-token credentials, and the rules that turn a response into a result.

pub mod endpoints;
pub mod framework;
