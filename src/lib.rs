//! A deterministic RV32IM interpreter that checks every executed instruction
//! against a small stack-script encoding of its semantics and folds each
//! post-step machine state into a SHA-1 hash chain.
//!
//! - `decode`: instruction words to `Instr`.
//! - `alu`: the arithmetic, logical and branch semantics.
//! - `image`: the program image with its bounds-checked memory regions.
//! - `machine`: architectural state and the effect of one instruction.
//! - `script`: the stack language and the per-instruction verifier.
//! - `trace`: state encoding, the hash chain and hex rendering.
//! - `engine`: the run loop with fault injection, verification and tracing.
//! - `checkpoint`: versioned snapshots for resuming a run.
//! - `laws`: properties of the above, proved.
//! - `math`, `memory`, `option`, `sample`: the guest-side settlement
//!   arithmetic and address conventions of the sample workloads.

pub mod alu;
pub mod checkpoint;
pub mod decode;
pub mod engine;
pub mod image;
pub mod laws;
pub mod machine;
pub mod math;
pub mod memory;
pub mod option;
pub mod sample;
pub mod script;
pub mod trace;

pub use math::{max, min, safe_div};
pub use option::{OptionContract, OptionType, SettlementResult};
