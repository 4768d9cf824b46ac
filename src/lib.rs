//! Ranking and triage of GitHub issues and pull requests: watch-rule
//! matching, priority scoring, urgency classification and action items,
//! with the smaller rules around them (references, durations, cache keys,
//! prompts, event listings and saved state).

// The analysis engine.
pub mod analysis;
pub mod context;
pub mod scoring;
pub mod watch_rules;

// Data that the engine reads.
pub mod config;
pub mod github;

// Text operations the rules are stated on.
pub mod text;

// Surrounding rules.
pub mod cache;
pub mod claude;
pub mod compression;
pub mod dynamic;
pub mod error;
pub mod events;
pub mod gh_version;
pub mod key_gen;
pub mod prompts;
pub mod reference;
pub mod report;
pub mod state;
pub mod time;
