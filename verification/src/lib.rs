//! A client-side builder for execution graphs that a remote executor runs over
//! tabular data.
//!
//! Buffering calls append operation nodes to an in-memory graph. An action
//! appends its node and hands out the encoded graph for transmission; once the
//! executor has answered, the buffer is cleared and the checkpoint advances to
//! the node that triggered the exchange. The library performs no I/O itself:
//! the caller carries each message to the executor and reports back what came
//! of it.

pub mod error;
pub mod graph;
pub mod ids;
pub mod operation;
pub mod response;
pub mod session;
pub mod tokens;
pub mod wire;
