//! Client-side protocol for submitting inference jobs to a remote compute
//! API and polling them to completion.
//!
//! The crate verifies the protocol's decision logic: how request payloads
//! are built, how a server response is classified as terminal success,
//! terminal error or still running, and how the submit/poll state machine
//! advances. The network transport itself (an HTTP POST per step) is left
//! to the embedding application, which feeds each transport outcome back
//! into the verified state machine.

pub mod endpoint;
pub mod msg;
pub mod payload;
pub mod protocol;
pub mod types;

pub use protocol::RunAction;
pub use protocol::RunState;
pub use types::BananaError;
pub use types::BananaResponse;
pub use types::CheckPayload;
pub use types::Payload;
pub use types::ProtocolViolation;
pub use types::TransportOutcome;
