//! Decoding of the Aurora engine's receipts into transaction events.
//!
//! For each receipt that is addressed to the engine's account, the calls of
//! `submit` and `submit_with_args` are decoded: the Ethereum-style
//! transaction that the call carries, and the engine's result of running it.
//! Both are merged with the receipt's place in the chain into one event,
//! which is handed to a sink. Once per block the sink is flushed.

pub mod decode;
pub mod dispatch;
pub mod engine;
pub mod event;
pub mod hash_text;
pub mod indexer;
pub mod laws;
pub mod receipt;
pub mod sink;
pub mod text;
pub mod types;

pub use indexer::AuroraIndexer;
pub use sink::AuroraEventHandler;
pub use types::EventContext;
