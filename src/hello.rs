//! The greeting services: one shared by concurrent handlers, and one owned by
//! a single caller that handles its requests in order.

use vstd::prelude::*;
use std::sync::Arc;
use crate::counter::{next_count, RequestCounter};
use crate::greeting::{chosen_name, greeting, greeting_text, name_or_default};

verus! {

/// The greeting handler, holding a counter shared with every other handler.
pub struct HelloWorld(pub Arc<RequestCounter>);

impl HelloWorld {
    /// Greets the given name (or `world`), reporting the count that this
    /// invocation took from the shared counter.
    ///
    /// The counter is incremented exactly once.
    pub fn invoke(&self, name: Option<&str>) -> (r: String)
        ensures
            exists|n: usize| r@ == greeting_text(chosen_name(name), n as nat),
    {
        let who = name_or_default(name);
        let times_invoked = self.0.fetch_and_increment();
        greeting(who, times_invoked)
    }
}

/// A greeting service owned by one caller, whose requests arrive one after
/// another.
pub struct SequentialGreeter {
    count: usize,
}

impl View for SequentialGreeter {
    /// The count that the next request will report.
    type V = usize;

    closed spec fn view(&self) -> usize {
        self.count
    }
}

impl SequentialGreeter {
    /// A greeter whose first request reports `initial`.
    pub fn new(initial: usize) -> (r: SequentialGreeter)
        ensures
            r@ == initial,
    {
        SequentialGreeter { count: initial }
    }

    /// The count that the next request will report.
    pub fn current(&self) -> (r: usize)
        ensures
            r == self@,
    {
        self.count
    }

    /// Greets the given name (or `world`) with the current count, then
    /// advances the count by one.
    pub fn handle(&mut self, name: Option<&str>) -> (r: String)
        ensures
            r@ == greeting_text(chosen_name(name), old(self)@ as nat),
            final(self)@ == next_count(old(self)@),
    {
        let who = name_or_default(name);
        let times_invoked = self.count;
        self.count = self.count.wrapping_add(1);
        greeting(who, times_invoked)
    }
}

} // verus!
