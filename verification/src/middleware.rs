//! Example layers: the middleware factories this crate ships to exercise the
//! composition engine. Each one wraps an arbitrary inner service and pins the
//! wrapped service's behaviour down exactly.

use vstd::prelude::*;
use vstd::string::StringExecFns;

use crate::basic::tagged;
use crate::service::Layer;
use crate::service::Service;

verus! {

/// A layer that forwards the inner service's answer through a second tagging
/// step: the wrapped service answers `tag:inner_answer`. It demonstrates a
/// wrapper that performs its own upstream work after the inner service
/// resolves, rather than purely observing.
pub struct ChainLayer {
    /// The tag of the second step every wrapped service applies.
    pub tag: String,
}

/// The service a [`ChainLayer`] produces: it calls the inner service, then
/// tags the intermediate answer.
pub struct ChainService<S> {
    /// The tag of the second step.
    pub tag: String,
    /// The wrapped service; it sees every call first.
    pub inner: S,
}

impl<S> Service for ChainService<S> where S: Service<Input = String, Output = String> {
    type Input = String;

    type Output = String;

    open spec fn spec_output(&self, input: Seq<char>) -> Seq<char> {
        tagged(self.tag@, self.inner.spec_output(input))
    }

    open spec fn spec_step(&self, input: Seq<char>, next: Self) -> bool {
        next.tag == self.tag && self.inner.spec_step(input, next.inner)
    }

    fn call(&mut self, input: String) -> (r: String) {
        proof {
            reveal_strlit(":");
            assert(":"@ =~= seq![':']);
        }
        let ghost input_view = input@;
        let intermediate = self.inner.call(input);
        let mut out = self.tag.clone();
        out.append(":");
        out.append(intermediate.as_str());
        proof {
            assert(out@ =~= tagged(old(self).tag@, old(self).inner.spec_output(input_view)));
        }
        out
    }
}

impl<S> Layer<S> for ChainLayer where S: Service<Input = String, Output = String> {
    type Service = ChainService<S>;

    open spec fn spec_layer(&self, inner: S) -> ChainService<S> {
        ChainService { tag: self.tag, inner }
    }

    fn layer(&self, inner: S) -> (r: ChainService<S>) {
        ChainService { tag: self.tag.clone(), inner }
    }
}

/// How one observed call changes a saturating call counter.
pub open spec fn bumped(count: u64) -> u64 {
    if count < u64::MAX {
        (count + 1) as u64
    } else {
        count
    }
}

/// A layer that only observes: the wrapped service hands every input to the
/// inner service and returns its answer unchanged, counting the calls it saw.
pub struct LoggingMiddleware;

/// The service a [`LoggingMiddleware`] produces. Transparent to the call; the
/// number of calls observed so far is its only state of its own.
pub struct LoggingService<S> {
    /// The wrapped service.
    pub inner: S,
    /// How many calls this instance has observed, saturating.
    pub observed: u64,
}

impl<S: Service> Service for LoggingService<S> {
    type Input = S::Input;

    type Output = S::Output;

    open spec fn spec_output(&self, input: <S::Input as View>::V) -> <S::Output as View>::V {
        self.inner.spec_output(input)
    }

    open spec fn spec_step(&self, input: <S::Input as View>::V, next: Self) -> bool {
        next.observed == bumped(self.observed) && self.inner.spec_step(input, next.inner)
    }

    fn call(&mut self, input: S::Input) -> (r: S::Output) {
        if self.observed < u64::MAX {
            self.observed = self.observed + 1;
        }
        self.inner.call(input)
    }
}

impl<S: Service> Layer<S> for LoggingMiddleware {
    type Service = LoggingService<S>;

    open spec fn spec_layer(&self, inner: S) -> LoggingService<S> {
        LoggingService { inner, observed: 0u64 }
    }

    fn layer(&self, inner: S) -> (r: LoggingService<S>) {
        LoggingService { inner, observed: 0u64 }
    }
}

/// `input`, then an opening mark carrying `name`: what a marking service hands
/// its inner service.
pub open spec fn pre_marked(name: Seq<char>, input: Seq<char>) -> Seq<char> {
    input + seq!['<'] + name
}

/// `output`, then a closing mark carrying `name`: what a marking service
/// returns.
pub open spec fn post_marked(name: Seq<char>, output: Seq<char>) -> Seq<char> {
    output + seq!['>'] + name
}

/// An instrumentation layer that makes call order visible in the data itself:
/// the wrapped service appends `<name` to the input before handing it inward
/// and `>name` to the answer on the way out. Reading a final answer left to
/// right therefore replays the order in which the nested services ran.
pub struct MarkLayer {
    /// The name this layer stamps into every call that passes it.
    pub name: String,
}

/// The service a [`MarkLayer`] produces.
pub struct MarkService<S> {
    /// The stamp.
    pub name: String,
    /// The wrapped service.
    pub inner: S,
}

impl<S> Service for MarkService<S> where S: Service<Input = String, Output = String> {
    type Input = String;

    type Output = String;

    open spec fn spec_output(&self, input: Seq<char>) -> Seq<char> {
        post_marked(self.name@, self.inner.spec_output(pre_marked(self.name@, input)))
    }

    open spec fn spec_step(&self, input: Seq<char>, next: Self) -> bool {
        next.name == self.name && self.inner.spec_step(
            pre_marked(self.name@, input),
            next.inner,
        )
    }

    fn call(&mut self, input: String) -> (r: String) {
        proof {
            reveal_strlit("<");
            reveal_strlit(">");
            assert("<"@ =~= seq!['<']);
            assert(">"@ =~= seq!['>']);
        }
        let ghost input_view = input@;
        let mut marked = input;
        marked.append("<");
        marked.append(self.name.as_str());
        proof {
            assert(marked@ =~= pre_marked(self.name@, input_view));
        }
        let mut out = self.inner.call(marked);
        out.append(">");
        out.append(self.name.as_str());
        proof {
            assert(out@ =~= post_marked(
                old(self).name@,
                old(self).inner.spec_output(pre_marked(old(self).name@, input_view)),
            ));
        }
        out
    }
}

impl<S> Layer<S> for MarkLayer where S: Service<Input = String, Output = String> {
    type Service = MarkService<S>;

    open spec fn spec_layer(&self, inner: S) -> MarkService<S> {
        MarkService { name: self.name, inner }
    }

    fn layer(&self, inner: S) -> (r: MarkService<S>) {
        MarkService { name: self.name.clone(), inner }
    }
}

} // verus!
