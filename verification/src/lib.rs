//! A coding agent's chat history, read back from its JSONL transcripts, and the
//! rate-limit reports that the agent emits while it runs.
#![allow(unused_imports)]

use vstd::prelude::*;

pub mod discovery;
pub mod entry;
pub mod import_one;
pub mod import_run;
pub mod json;
pub mod laws;
pub mod order;
pub mod rate_limit;
pub mod record_laws;
pub mod run_laws;
pub mod step_laws;
pub mod text;
pub mod text_laws;
pub mod timestamp;
pub mod transcript;
pub mod usage;
pub mod view_laws;

verus! {

} // verus!
