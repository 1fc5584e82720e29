//! Request and response shapes of the HTTP API, and the validation rules of
//! the requests.

pub mod auth;
pub mod organizations;
pub mod validation;
