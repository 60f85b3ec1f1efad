//! Compilation-context orchestrator for a small native code generator.
//!
//! The `Context` owns one function under compilation together with every
//! derived analysis (control-flow graph, dominator tree, loop analysis,
//! register-allocation state), drives the function through a fixed,
//! tier-gated sequence of passes, and finally emits machine code for a
//! target described by an immutable capability object.
//!
//! The contracts pin down the orchestration itself: the exact pass order per
//! optimization tier, the invalidation discipline for derived analyses, the
//! gating of the verifier, the reuse contract of `clear`, and the emission
//! contract (buffer sizing and the relocation, trap and stack-map records).

pub mod binemit;
pub mod checker;
pub mod context;
pub mod dominator_tree;
pub mod errors;
pub mod flowgraph;
pub mod ir;
pub mod isa;
pub mod loop_analysis;
pub mod passes;
pub mod regalloc;
pub mod runner;

pub use context::Context;
pub use runner::FunctionRunner;
