//! A `Task`: one named external command template.

use vstd::prelude::*;

verus! {

/// A task from a project: an executable, a fixed argument list that is
/// always prepended, and the exact number of additional arguments a call
/// site must supply (absent means call sites must supply none).
pub struct Task {
    pub command: String,
    pub args: Option<Vec<String>>,
    pub required_call_args: Option<u8>,
}

impl Task {
    /// The fixed arguments, with an absent list meaning no arguments.
    pub open spec fn fixed_args(self) -> Seq<Seq<char>> {
        match self.args {
            Some(v) => v.deep_view(),
            None => Seq::empty(),
        }
    }

    /// The exact number of call-site arguments the task demands.
    pub open spec fn arity(self) -> nat {
        match self.required_call_args {
            Some(n) => n as nat,
            None => 0,
        }
    }
}

} // verus!
