//! A test microkernel's multi-processor, multi-trust-level execution framework:
//! per-processor command queues, the bring-up and level-switch plans that run a
//! command on any processor at any guest trust level, the hypercall batching
//! rules, structured log records, and the locks and queues they share.
use vstd::prelude::*;

pub mod abi;
pub mod cmdbus;
pub mod hypercall;
pub mod orchestrator;
pub mod platform;
pub mod slog;
pub mod sync;
pub mod vtl;
pub mod wire;

verus! {

} // verus!
