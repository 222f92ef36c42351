//! Verified core of a minimal shader smoke-test harness.
//!
//! The library holds the decision logic of the harness: shader bookkeeping
//! and compile/link validation (`compiler`), the render-app state machine
//! with its event handling and per-frame uniform computation (`render`),
//! and the classification of GPU error codes (`diag`). The GPU command
//! interface and the windowing layer are external collaborators: the
//! surrounding binary performs those calls and feeds their results, as
//! plain values, into the functions here.

pub mod compiler;
pub mod diag;
pub mod render;
