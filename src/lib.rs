//! Process bootstrap logic of a language server: which operating mode an
//! invocation selects, how the initialize handshake proceeds, and how the
//! workspace configuration is resolved from what the client declared.
use vstd::prelude::*;

pub mod text;
pub mod workspace;
pub mod options;
pub mod config;
pub mod handshake;
pub mod mode;

verus! {

} // verus!
