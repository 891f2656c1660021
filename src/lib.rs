//! The protocol core of a host that supervises agent subprocesses speaking
//! line-framed JSON-RPC over their standard pipes: message classification,
//! typed payloads, the update interpreter, permission selection and the
//! per-agent state machine.
use vstd::prelude::*;

pub mod json;
pub mod protocol;
pub mod messages;
pub mod process;
pub mod permission;
pub mod message_processor;
pub mod codec;
pub mod metrics;
pub mod registry;
pub mod scanner;

verus! {

} // verus!
