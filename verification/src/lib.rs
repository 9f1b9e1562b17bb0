//! Command-execution engine and per-language build/run instruction resolver
//! for a sandboxed source-code runner.
//!
//! Callers submit an ordered, non-empty list of source files together with a
//! language tag. [`language::run_instructions`] resolves that pair into an
//! ordered list of build commands followed by one run command. The commands
//! themselves are executed by unverified glue around this library; the
//! [`cmd`] module classifies each raw process outcome into a typed success or
//! failure, the [`pipeline`] module decides, step by step, which command to
//! execute next and how to report the final result, and the [`request`]
//! module validates inbound file entries before anything is written or
//! spawned.

pub mod cmd;
pub mod language;
pub mod non_empty_vec;
pub mod pipeline;
pub mod request;
pub mod text;
