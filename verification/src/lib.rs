//! Streaming chat relay engine: token-boundary repair for incremental text
//! fragments, an optional constrained decoder for a two-variant tagged
//! grammar, a turn record model, and the per-connection relay session state
//! machine that ties them together.

pub mod backend;
pub mod decode;
pub mod error;
pub mod normalize;
pub mod routes;
pub mod session;
pub mod text;
pub mod turn;
