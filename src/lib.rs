//! Sandflake: 64-bit identifiers built from a millisecond timestamp, a node
//! identity, a per-millisecond sequence and an object-class tag.

pub mod clock;
pub mod generator;
pub mod layout;
pub mod sequence;

pub use layout::{
    decode_class, decode_node, decode_sequence, decode_timestamp, encode, MAX_CLASS,
    MAX_NODE_FIELD, MAX_SEQUENCE, MAX_TIMESTAMP,
};
pub use sequence::{advance, Transition, MAX_STATE, TICK_SLOTS};
pub use clock::{millis_since_epoch, system_millis, MockClock, TimestampGenerator, BASE_EPOCH_MS};
pub use generator::{
    retry_action, ConfigError, GenerateError, ObjectClass, RetryAction, Sandflake, MAX_NODE_ID,
    SWAP_ATTEMPTS, WAIT_BUDGET_MS,
};
