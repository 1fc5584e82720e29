//! Lodestone's authentication and organisation rules: roles and their
//! hierarchy, password and token handling, request validation, error
//! mapping, configuration loading and the decision steps of the
//! authentication flows.

pub mod clock;
pub mod config;
pub mod dto;
pub mod error;
pub mod handlers;
pub mod jwt;
pub mod password;
pub mod refresh;
pub mod role;
pub mod services;
pub mod text;
