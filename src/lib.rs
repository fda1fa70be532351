//! Credential verification and session authorization for a small newsletter
//! web application: password hashing and checking, the authorization gate in
//! front of protected routes, the password-change rules and the HTTP
//! Basic-Auth header parser.

pub mod secret;
pub mod password;
pub mod authentication;
pub mod basic_auth;
pub mod password_change;
pub mod login;
pub mod domain;
pub mod newsletters;
