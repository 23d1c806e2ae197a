//! The request pipeline of a semantic search endpoint: a text query is taken from
//! an HTTP request, sent to an embedding provider, the vector that comes back is
//! used for a nearest-neighbour search in a vector store, and the matches are
//! rendered as an HTML page.
//!
//! The library decides and builds; it performs no I/O of its own. The caller
//! carries out the requests that the pipeline asks for and hands the outcomes
//! back.
//!
//! - [`service`]: the configuration and the start-up of the process.
//! - [`pipeline`]: the state machine that handles one request.
//! - [`query`], [`embedding`], [`store`], [`render`], [`reply`]: the stages of the
//!   pipeline, each with the values that it takes and gives.
//! - [`run`]: whole runs of the pipeline and what is proved of them.
//! - [`json`]: string literals of JSON.
//! - [`text`]: white space.

pub mod text;
pub mod json;
pub mod reply;
pub mod query;
pub mod embedding;
pub mod store;
pub mod render;
pub mod service;
pub mod pipeline;
pub mod run;
