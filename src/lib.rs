//! An asynchronous cross-contract call orchestrator and callback-result
//! recorder.
//!
//! The triggering entry points build the asynchronous calls that the host
//! environment is to submit; the two callback entry points turn the
//! resolution arguments that the host delivers into the storage writes that
//! record them under a single, shared, monotonically growing index.
//! Everything here is a pure function from plain values to plain values: the
//! host glue reads arguments and storage, calls in, and performs what comes
//! back.

mod calls;
mod endpoint;
mod error;
pub mod history;
pub mod records;

pub use calls::{
    answer, call_caller, call_first_and_second_contract, call_first_contract, AsyncCall,
    ContractAddress, Destinations, ANSWER, COMMON_GROUP_ID, FAIL_CALLBACK_NAME,
    GAS_LIMIT, SUCCESS_CALLBACK_NAME,
};
pub use endpoint::Endpoint;
pub use error::ContractError;
pub use records::{
    construct_storage_key, fail_callback, success_callback, StorageWrite,
    CURRENT_STORAGE_INDEX_KEY, FAIL_CALLBACK_ARGUMENT_KEY, SUCCESS_CALLBACK_ARGUMENT_KEY,
};
