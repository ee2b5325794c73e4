//! Base services: the innermost units a pipeline is finalized with. Their
//! upstream work is a deterministic textual computation, so everything they
//! promise can be read off one specification function.

use vstd::prelude::*;
use vstd::string::StringExecFns;

use crate::service::Service;

verus! {

/// `tag`, a separating colon, then `rest`: the textual shape every tagging
/// service and layer of this crate produces.
pub open spec fn tagged(tag: Seq<char>, rest: Seq<char>) -> Seq<char> {
    tag + seq![':'] + rest
}

/// A base service that answers every input with the input itself. The neutral
/// subject for observing what layers add around a call.
pub struct EchoService;

impl Service for EchoService {
    type Input = String;

    type Output = String;

    open spec fn spec_output(&self, input: Seq<char>) -> Seq<char> {
        input
    }

    open spec fn spec_step(&self, input: Seq<char>, next: Self) -> bool {
        next == *self
    }

    fn call(&mut self, input: String) -> (r: String) {
        input
    }
}

/// A base service that answers `input` with `tag:input`: a stand-in for a
/// computation handed to an upstream backend, with the answer pinned down
/// exactly.
pub struct TagService {
    /// Prepended, with a colon, to every input.
    pub tag: String,
}

impl Service for TagService {
    type Input = String;

    type Output = String;

    open spec fn spec_output(&self, input: Seq<char>) -> Seq<char> {
        tagged(self.tag@, input)
    }

    open spec fn spec_step(&self, input: Seq<char>, next: Self) -> bool {
        next == *self
    }

    fn call(&mut self, input: String) -> (r: String) {
        proof {
            reveal_strlit(":");
            assert(":"@ =~= seq![':']);
        }
        let mut out = self.tag.clone();
        out.append(":");
        out.append(input.as_str());
        proof {
            assert(out@ =~= tagged(self.tag@, input@));
        }
        out
    }
}

} // verus!
