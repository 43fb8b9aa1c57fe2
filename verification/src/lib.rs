//! Client-side driver for a remote analytical query engine: a logical plan
//! model that lowers to a wire-level relation tree, a session layer that
//! builds execution requests and folds streamed responses, a columnar
//! result decoder, and a typed error taxonomy for server failures.
pub mod arrow;
pub mod dataframe;
pub mod error;
pub mod plan;
pub mod protocol;
pub mod session;
pub mod wire;
