//! A small label viewer service: routing, content classification and
//! response building for a REST-like API over an external label store.

pub mod classify;
pub mod http;
pub mod json;
pub mod router;
pub mod service;
