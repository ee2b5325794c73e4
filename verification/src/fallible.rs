//! A fallible service family. The engine itself cannot fail; failure
//! originates inside a concrete service and is carried outward as a value,
//! which lets the fail-fast behaviour of well-behaved layers be stated and
//! proved exactly.

use vstd::prelude::*;
use vstd::string::StringExecFns;

use crate::basic::tagged;
use crate::service::Layer;
use crate::service::Service;

verus! {

/// Why a call failed.
#[derive(Clone, Copy, Debug, PartialEq, Eq)]
pub enum ServiceError {
    /// The input was empty and the service insists on substance.
    EmptyInput,
}

/// What a fallible call produced: an answer, or the failure that aborted it.
#[derive(Clone, Debug, PartialEq, Eq)]
pub enum Outcome {
    /// The call ran to completion with this answer.
    Success(String),
    /// The call failed; no answer exists.
    Failure(ServiceError),
}

impl View for Outcome {
    type V = Result<Seq<char>, ServiceError>;

    open spec fn view(&self) -> Result<Seq<char>, ServiceError> {
        match self {
            Outcome::Success(answer) => Ok(answer@),
            Outcome::Failure(error) => Err(*error),
        }
    }
}

/// A base service that rejects empty input and answers `tag:input` otherwise.
/// The designated failing inputs make failure propagation observable.
pub struct CheckedTagService {
    /// Prepended, with a colon, to every accepted input.
    pub tag: String,
}

impl Service for CheckedTagService {
    type Input = String;

    type Output = Outcome;

    open spec fn spec_output(&self, input: Seq<char>) -> Result<Seq<char>, ServiceError> {
        if input.len() == 0 {
            Err(ServiceError::EmptyInput)
        } else {
            Ok(tagged(self.tag@, input))
        }
    }

    open spec fn spec_step(&self, input: Seq<char>, next: Self) -> bool {
        next == *self
    }

    fn call(&mut self, input: String) -> (r: Outcome) {
        if input.as_str().is_empty() {
            Outcome::Failure(ServiceError::EmptyInput)
        } else {
            proof {
                reveal_strlit(":");
                assert(":"@ =~= seq![':']);
            }
            let mut out = self.tag.clone();
            out.append(":");
            out.append(input.as_str());
            proof {
                assert(out@ =~= tagged(self.tag@, input@));
            }
            Outcome::Success(out)
        }
    }
}

/// A chaining layer over fallible services. On success of the inner service
/// the wrapped service tags the intermediate answer; a failure of the inner
/// service is surfaced unchanged, and the tagging step — the work that
/// depends on a success value — does not run.
pub struct TryChainLayer {
    /// The tag of the second step applied to successful answers.
    pub tag: String,
}

/// The service a [`TryChainLayer`] produces.
pub struct TryChainService<S> {
    /// The tag of the second step.
    pub tag: String,
    /// The wrapped service.
    pub inner: S,
}

impl<S> Service for TryChainService<S> where S: Service<Input = String, Output = Outcome> {
    type Input = String;

    type Output = Outcome;

    open spec fn spec_output(&self, input: Seq<char>) -> Result<Seq<char>, ServiceError> {
        match self.inner.spec_output(input) {
            Ok(answer) => Ok(tagged(self.tag@, answer)),
            Err(error) => Err(error),
        }
    }

    open spec fn spec_step(&self, input: Seq<char>, next: Self) -> bool {
        next.tag == self.tag && self.inner.spec_step(input, next.inner)
    }

    fn call(&mut self, input: String) -> (r: Outcome) {
        let ghost input_view = input@;
        let step = self.inner.call(input);
        match step {
            Outcome::Success(answer) => {
                proof {
                    reveal_strlit(":");
                    assert(":"@ =~= seq![':']);
                }
                let mut out = self.tag.clone();
                out.append(":");
                out.append(answer.as_str());
                proof {
                    assert(out@ =~= tagged(old(self).tag@, answer@));
                }
                Outcome::Success(out)
            },
            Outcome::Failure(error) => Outcome::Failure(error),
        }
    }
}

impl<S> Layer<S> for TryChainLayer where S: Service<Input = String, Output = Outcome> {
    type Service = TryChainService<S>;

    open spec fn spec_layer(&self, inner: S) -> TryChainService<S> {
        TryChainService { tag: self.tag, inner }
    }

    fn layer(&self, inner: S) -> (r: TryChainService<S>) {
        TryChainService { tag: self.tag.clone(), inner }
    }
}

} // verus!
