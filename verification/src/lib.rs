//! The core of a local development proxy with live reload: rewriting HTML
//! responses to carry a reload client script, the registry of reload
//! connections, the gating of the reload signal on backend availability,
//! and a declarative task runner — named sequences of operations (run a
//! command, copy a path, change the scoped working directory) executed in
//! order and stopped at the first failure.
//!
//! Everything here is pure decision logic with proved contracts. The
//! listeners, the forwarding, the subprocesses and the file system sit in
//! the surrounding program, which performs what these functions decide.

pub mod context;
pub mod http;
pub mod inject;
pub mod op;
pub mod poll;
pub mod program;
pub mod registry;
pub mod script;
pub mod task;

use vstd::prelude::*;

verus! {

/// The result of running one operation or one whole task: either everything
/// went as intended, or the work signalled that it did not.
#[derive(Clone, Copy, Debug, PartialEq, Eq, Structural)]
pub enum Outcome {
    Success,
    Failure,
}

impl Outcome {
    pub fn is_failure(&self) -> (r: bool)
        ensures
            r == (*self is Failure),
    {
        match self {
            Outcome::Failure => true,
            Outcome::Success => false,
        }
    }
}

} // verus!
