//! Atlas: the verified core of a local-first learning workspace.
//!
//! The library holds the domain logic of the application: error values,
//! identifiers, text helpers, the Student Memory stores, the background job
//! queue and its state machine, the layered settings resolver, structured
//! model-output validation, engine routing, concept-graph extraction and the
//! SQLite-backed repositories. Every executable function carries a contract
//! that Verus checks.

pub mod error;
pub mod ids;
pub mod text;
pub mod records;
pub mod json;
pub mod memory;
pub mod chat;
pub mod memory_store;
pub mod study_output;
pub mod time;
pub mod db;
pub mod study_store;
pub mod memory_db;
pub mod settings;
pub mod documents;
pub mod jobs;
pub mod engines;
pub mod graph;
pub mod cancellation;
pub mod state;
pub mod search;
pub mod registry;
pub mod workspaces;
pub mod chat_flow;
pub mod chat_turn;
pub mod prompts;
pub mod requests;
