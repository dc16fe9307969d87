//! Renders a link aggregator's JSON feed (stories and their comment threads)
//! into plain-text and Gemini documents, and keeps the per-story bookkeeping of
//! a mirroring run.

pub mod text;
pub mod time;
pub mod model;
pub mod render;
pub mod pipeline;
