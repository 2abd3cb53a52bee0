//! Dispatcher core of a client for the VK HTTP API.
//!
//! Method calls are coalesced into `execute` batches of at most
//! [`MAX_METHODS_IN_EXECUTE`] calls, the batch response is split back into one
//! outcome per call, and every outcome is handed to the position it was
//! submitted at.

pub mod client;
pub mod config;
pub mod error;
pub mod execute_compiler;
pub mod json;
pub mod method;
pub mod order;
pub mod pool;
pub mod script;
pub mod text;
pub mod types;
pub mod value;
pub mod vk_error;

pub use client::worker::Worker;
pub use client::{Client, SubmitError, MAX_METHODS_IN_EXECUTE};
pub use config::Config;
pub use error::Error;
pub use execute_compiler::ExecuteCompiler;
pub use method::{Method, Params};
pub use value::{Json, Value};
pub use vk_error::{params_from_pairs, VkError, VkResult};
