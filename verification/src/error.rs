//! The error type used throughout the crate: a message together with a
//! chain of context notes, innermost first, so a top-level handler can
//! print the full causal chain.

use vstd::prelude::*;

verus! {

/// An error message plus a chain of context breadcrumbs.
///
/// The message describes the failure itself; each context note names an
/// operation that was in progress when the failure surfaced, pushed
/// innermost first.
#[derive(Debug)]
pub struct Error {
    message: String,
    contexts: Vec<String>,
}

impl Error {
    /// The failure message.
    pub closed spec fn message_view(&self) -> Seq<char> {
        self.message@
    }

    /// The chain of context notes, innermost first.
    pub closed spec fn contexts_view(&self) -> Seq<Seq<char>> {
        self.contexts.deep_view()
    }

    /// Makes an error carrying just a message, with no context yet.
    pub fn new(message: String) -> (r: Self)
        ensures
            r.message_view() == message@,
            r.contexts_view() =~= Seq::<Seq<char>>::empty(),
    {
        let r = Error { message, contexts: Vec::new() };
        proof {
            assert(r.contexts_view() =~= Seq::<Seq<char>>::empty());
        }
        r
    }

    /// Adds one more context note to the chain.
    pub fn push_context(self, context: String) -> (r: Self)
        ensures
            r.message_view() == self.message_view(),
            r.contexts_view() =~= self.contexts_view().push(context@),
    {
        let Error { message, mut contexts } = self;
        contexts.push(context);
        let r = Error { message, contexts };
        proof {
            assert(r.contexts_view() =~= contexts.deep_view());
        }
        r
    }

    /// Reads the failure message.
    pub fn message(&self) -> (r: &String)
        ensures
            r@ == self.message_view(),
    {
        &self.message
    }

    /// Reads the context chain, innermost first.
    pub fn contexts(&self) -> (r: &Vec<String>)
        ensures
            r.deep_view() == self.contexts_view(),
    {
        &self.contexts
    }
}

} // verus!
