//! Simple library for build (non-full) REST microservice
//!
//! A request names a function by the last word of its path. Functions are
//! registered for `GET` and for `POST` before the service starts, and have
//! the signature
//!
//!  fn(Handle, Arc<T>, Option<&str>) -> RasResult
//!
//! where `T` is the service: the resources that all calls share. A function
//! must return RasResult::Sync for a sync call, and RasResult::Async for an
//! async call. Sync contains HttpStatus and answer data. Async contains a
//! JoinHandle, which will be awaited.

pub mod key_request;
pub mod names;
pub mod outcome;
pub mod path;
pub mod ras_auth_client;
pub mod ras_helper;
pub mod request;
pub mod response;
pub mod routes;
pub mod service;
pub mod status;
pub mod text;

pub use crate::outcome::RasResult;
pub use crate::service::RasServiceBuilder;
pub use crate::status::HttpStatus;
pub use openssl::error::ErrorStack;
pub use openssl::hash::MessageDigest;
pub use openssl::pkey::PKey;
pub use openssl::pkey::Public;
pub use openssl::sign::Verifier;
pub use std::collections::HashMap;
pub use std::sync::Arc;
pub use std::sync::Mutex;
pub use tokio::runtime::Handle;
