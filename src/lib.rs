//! Credential and token core of a username/password login service.
//!
//! Password hashing, claims construction and validation, compact signed
//! tokens, and the register/login decisions, each with a verified contract.
//! Talking to the user store, JSON and HTTP are left to the caller, which
//! hands in plain values and takes plain values back.
pub mod claims;
pub mod codec;
pub mod config;
pub mod error;
pub mod password;
pub mod service;
pub mod token;
pub mod user;
