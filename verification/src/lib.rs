//! Typed, bounds-checked planning of the environment calls that an Ewasm
//! contract makes to its host.
//!
//! The host is reached through a flat interface of raw offsets and lengths.
//! This library decides what is handed to that interface and what its answers
//! mean: it validates copy ranges against the size the host reported, lays out
//! log topics, sizes every length the host receives, and decodes outcome
//! codes.  The calls themselves are made by the embedding program.

pub mod call;
pub mod copy;
pub mod log;
pub mod outcome;
pub mod types;
pub mod width;

pub use call::{
    call_code, call_delegate, call_mutable, call_static, create, CallKind, CallRequest,
    CreateRequest,
};
pub use copy::{
    calldata_acquire, calldata_copy, code_acquire, code_copy, external_code_acquire,
    external_code_copy, returndata_acquire, returndata_copy, unsafe_calldata_copy,
    unsafe_code_copy, unsafe_external_code_copy, unsafe_returndata_copy, CopyRequest, CopySource,
};
pub use log::{log0, log1, log2, log3, log4, LogRequest};
pub use outcome::{CallResult, CreateResult, Error};
pub use types::{
    Address, Bytes20, Bytes32, Difficulty, EtherValue, StorageKey, StorageValue, Topic, Uint128,
    Uint256,
};
pub use width::to_host_size;
