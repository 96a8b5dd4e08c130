//! A typed client for the HipChat REST API, version 2.
//!
//! The library builds every request (method, URL, authorization, JSON body)
//! and interprets every response (status class, JSON decoding into typed
//! records). Sending the request over the network is left to the caller.

pub mod client;
pub mod emoticon;
pub mod error;
pub mod json;
pub mod message;
pub mod room;
pub mod user;
pub mod util;

pub use client::Client;
pub use error::{DecodeError, Error};
pub use json::{FromJson, Json};
