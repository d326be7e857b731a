//! A typed client for the OpenAI HTTP API, in two halves.
//!
//! This crate builds requests and decodes responses: every endpoint is a
//! function from its parameters to a [`request::Request`], with a contract
//! that states the method, the address, the headers and the body. Request
//! bodies have optional fields, and a field that was never set is not sent.
//! Sending a request is left to the caller.

pub mod error_handling;
pub mod json;
pub mod openai;
pub mod openai_api;
pub mod payload;
pub mod request;
pub mod request_client;
pub mod util;
