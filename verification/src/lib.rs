//! A single-flight coordinator for asynchronous remote text completions.
//!
//! The library owns the decisions of the coordinator: prompt validation,
//! the binding of a response decoder to each submitted request, the
//! single-flight task slot of the completion receiver, and the append-only
//! log the host displays. The host supplies the actual remote call and the
//! event loop, hands every outcome back as a plain value, and polls the
//! receiver on a fixed interval.

pub mod app;
pub mod brain;
pub mod completion_parser;
pub mod log;
pub mod prompt_builder;
