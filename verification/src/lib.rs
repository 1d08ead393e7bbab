//! A verified core for a diagram-rendering pipeline: a classifier that
//! recognizes diagram source text, a planner for materializing a bundled
//! renderer toolchain into an ephemeral sandbox, a step-by-step render
//! protocol that interprets subprocess results, and message formatting
//! for presenting outcomes.

pub mod assets;
pub mod classifier;
pub mod invoker;
pub mod outcome;
pub mod paths;
pub mod presenter;
