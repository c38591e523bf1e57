//! Main-thread instruction marshaling for a native windowing context.
//!
//! A native windowing context may only be touched from the single thread that
//! owns it. This library provides the verified core of a system that lets any
//! thread request operations on that context: a FIFO queue of deferred
//! instructions, a window registry that tracks live windows under never-reused
//! integer identifiers, and an application state that ties both to the
//! lifecycle of the owning thread's loop. The native calls themselves (window
//! creation, event polling) are performed by the unverified runtime around
//! this library; their results enter the verified code as plain values.

mod application;
mod error;
mod instruction;
mod laws;
mod queue;
mod registry;
mod window;

pub use application::{
    count_creates, create_window_post, creates_fit, end_application, execute_instruction,
    lemma_count_creates_snoc, lemma_run_preserves_wf, lemma_run_snoc, lemma_step_preserves_wf,
    outcomes_spec, record_spec, run_spec, step_spec, AppState, AppView, NativeEnv, Outcome, Phase,
};
pub use error::WindowError;
pub use instruction::{mode_spec, resolve_mode, Instruction, WindowMode};
pub use laws::{
    effective_destroys, lemma_created_ids_fresh_and_distinct, lemma_destroy_idempotent,
    lemma_fifo_order, lemma_live_window_count, lemma_next_id_monotone, lemma_outcome_at,
    lemma_prefix_wf, outcome_answers,
};
pub use queue::InstructionQueue;
pub use registry::{RegistryView, WindowRecord, WindowRegistry};
pub use window::Window;
