//! Typed message and content model for a tool-invocation protocol carried
//! over JSON-RPC 2.0: envelopes, error codes, prompts, prompt messages and
//! resources, with their construction-time invariants proved.
use vstd::prelude::*;

pub mod deps;
pub mod json;
pub mod prompt;
pub mod protocol;
pub mod resource;
