//! Password hashing and verification with Argon2 for a host that talks to
//! this library through byte buffers.
//!
//! A request arrives as JSON text, is decoded into typed parameters, and the
//! optional overrides it carries are resolved against the Argon2 defaults.
//! The reply is a flat envelope `{ result, error }`, written as JSON text and
//! framed with a four-byte big-endian length.
//!
//! The JSON text and the hash are the work of `serde_json` and `argon2`;
//! what is taken on trust of them stands in `codec` and `primitive`. Every
//! hash is computed in the calling thread: no call starts a thread, whatever
//! thread mode a request asks for, and the hash is the same.

pub mod codec;
pub mod command;
pub mod config;
pub mod decode;
pub mod frame;
pub mod json;
pub mod primitive;

pub use command::{hash, hash_internal, hash_password, hash_result, hash_with};
pub use command::{verify, verify_internal, verify_password, verify_result, verify_with};
pub use command::{Error, HashResult, VerifyResult};
pub use config::{resolve_config, HashOptions, ResolvedConfig, ThreadMode, Variant, Version};
pub use decode::{decode_hash_params, decode_verify_params};
pub use decode::{DecodeError, Field, HashParams, VerifyParams};
pub use frame::{frame_text, pack_result};
pub use json::Json;
