//! Verified core logic of a code editor's support crates: a compact bit set
//! for display rows, color literals, highlight merging, prompt libraries and
//! prompt texts, the vocabulary of Jupyter kernel messages and notebook
//! fields, contact and invite bookkeeping of a collaboration server,
//! resource pools for plugins, binary downloads, editor settings, and more.
use vstd::prelude::*;

pub mod bitset;
pub mod highlights;
pub mod color;
pub mod prompt_library;
pub mod jupyter;
mod text;
pub mod collab;
pub mod collab_db;
pub mod resource_pool;
pub mod binary_manager;
pub mod settings;
pub mod channels;
pub mod notebook;
pub mod assistant;
pub mod agents;
pub mod layout;
pub mod themes;
pub mod find;
pub mod find_in_buffer;
pub mod composite_buffer;
pub mod perf;
pub mod plugin_cache;
pub mod edits;
pub mod outline;
pub mod prompts;
pub mod pending_commands;

verus! {

} // verus!
