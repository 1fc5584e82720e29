//! The decisions of the authentication and organisation services. Storage is
//! outside the library: the flows here say which storage operation comes next
//! and what to answer, from the results handed back to them.

pub mod auth;
pub mod organizations;
