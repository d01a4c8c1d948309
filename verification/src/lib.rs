//! Idle-only turn admission for an agent thread: which requests may start a
//! turn, how each refusal is answered, and how a finished turn is reported.

pub mod absolute_path;
pub mod admission_laws;
pub mod completion;
pub mod completion_laws;
pub mod conditional_start_laws;
pub mod environment;
pub mod error_code;
pub mod flush_store;
pub mod handling_laws;
pub mod outgoing;
pub mod report_laws;
pub mod request_laws;
pub mod session;
pub mod session_laws;
pub mod thread_watch;
pub mod totality_laws;
pub mod turn;
pub mod turn_input;
pub mod turn_processor;
pub mod vocabulary_laws;
pub mod window_laws;
