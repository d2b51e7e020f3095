//! Core of a small web service that searches Twitch livestreams by category,
//! title words and language.
//!
//! The verified library holds the domain types, the OAuth token bookkeeping,
//! the cursor-driven pagination state machine and the title/language filter.
//! The surrounding binary performs the actual HTTP traffic and feeds the
//! results back in as plain values.

pub mod deser;
pub mod fetch;
pub mod handlers;
pub mod settings;
pub mod templates;
pub mod text;
pub mod twitch;
