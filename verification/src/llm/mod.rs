//! Language-model agents built on the framework: reading a model's streamed
//! reply, timing figures carried in task metadata, and the prompts and
//! replies of a research / critique / summary pipeline.

pub mod agents;
pub mod stream;
pub mod timing;
