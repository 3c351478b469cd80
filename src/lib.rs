//! Connection settings for a Redis server, rendered as a connection URL, and a
//! person record marshalled to and from the flat field map of a Redis hash.
use vstd::prelude::*;

pub mod config;
pub mod decimal;
pub mod person;

pub use config::{ConfigView, RedisConfig, RedisConfigBuilder};
pub use person::{Person, PersonError};

verus! {

/// The error type of the Redis client, carried through unchanged.
#[verifier::external_type_specification]
#[verifier::external_body]
pub struct ExRedisError(redis::RedisError);

} // verus!
