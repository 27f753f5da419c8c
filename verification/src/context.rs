//! The grammar context: which context-sensitive constructs are legal at the
//! current position.

use vstd::prelude::*;

verus! {

/// A set over four independent axes. A value is never changed in place: each
/// operation returns the derived set.
#[derive(Clone, Copy, Debug, PartialEq, Eq, Structural)]
pub struct Context {
    /// The `in` operator is allowed.
    pub has_in: bool,
    /// `await` is an operator, not an identifier.
    pub has_await: bool,
    /// `yield` is an operator, not an identifier.
    pub has_yield: bool,
    /// `return` is allowed.
    pub has_return: bool,
}

impl Context {
    /// The set without any axis.
    pub open spec fn spec_empty() -> Context {
        Context { has_in: false, has_await: false, has_yield: false, has_return: false }
    }

    /// The set a program starts with: only `in` is allowed.
    pub open spec fn spec_initial() -> Context {
        Context { has_in: true, has_await: false, has_yield: false, has_return: false }
    }

    pub open spec fn spec_and_in(self, on: bool) -> Context {
        Context { has_in: on, ..self }
    }

    pub open spec fn spec_and_await(self, on: bool) -> Context {
        Context { has_await: on, ..self }
    }

    pub open spec fn spec_and_yield(self, on: bool) -> Context {
        Context { has_yield: on, ..self }
    }

    pub open spec fn spec_and_return(self, on: bool) -> Context {
        Context { has_return: on, ..self }
    }

    pub open spec fn spec_union_yield_if(self, on: bool) -> Context {
        Context { has_yield: self.has_yield || on, ..self }
    }

    /// The set a function's signature and body are read under: `in` is
    /// allowed, and `await` and `yield` follow the function's own flags.
    pub open spec fn spec_enter_function(self, is_async: bool, generator: bool) -> Context {
        self.spec_and_in(true).spec_and_await(is_async).spec_and_yield(generator)
    }

    /// The set after a sub-parse that ran under `inner`: the three axes that a
    /// function changes are taken back from `self`.
    pub open spec fn spec_restore_onto(self, inner: Context) -> Context {
        inner.spec_and_in(self.has_in).spec_and_await(self.has_await).spec_and_yield(
            self.has_yield,
        )
    }

    /// The set with every axis of `add` added and then every axis of `remove`
    /// taken away.
    pub open spec fn spec_with(self, add: Context, remove: Context) -> Context {
        Context {
            has_in: (self.has_in || add.has_in) && !remove.has_in,
            has_await: (self.has_await || add.has_await) && !remove.has_await,
            has_yield: (self.has_yield || add.has_yield) && !remove.has_yield,
            has_return: (self.has_return || add.has_return) && !remove.has_return,
        }
    }

    pub fn empty() -> (c: Context)
        ensures
            c == Context::spec_empty(),
    {
        Context { has_in: false, has_await: false, has_yield: false, has_return: false }
    }

    pub fn initial() -> (c: Context)
        ensures
            c == Context::spec_initial(),
    {
        Context { has_in: true, has_await: false, has_yield: false, has_return: false }
    }

    /// The set that holds only the `return` axis.
    pub fn only_return() -> (c: Context)
        ensures
            c == Context::spec_empty().spec_and_return(true),
    {
        Context { has_in: false, has_await: false, has_yield: false, has_return: true }
    }

    pub fn has_in(self) -> (b: bool)
        ensures
            b == self.has_in,
    {
        self.has_in
    }

    pub fn has_await(self) -> (b: bool)
        ensures
            b == self.has_await,
    {
        self.has_await
    }

    pub fn has_yield(self) -> (b: bool)
        ensures
            b == self.has_yield,
    {
        self.has_yield
    }

    pub fn has_return(self) -> (b: bool)
        ensures
            b == self.has_return,
    {
        self.has_return
    }

    pub fn and_in(self, on: bool) -> (c: Context)
        ensures
            c == self.spec_and_in(on),
    {
        Context { has_in: on, ..self }
    }

    pub fn and_await(self, on: bool) -> (c: Context)
        ensures
            c == self.spec_and_await(on),
    {
        Context { has_await: on, ..self }
    }

    pub fn and_yield(self, on: bool) -> (c: Context)
        ensures
            c == self.spec_and_yield(on),
    {
        Context { has_yield: on, ..self }
    }

    pub fn and_return(self, on: bool) -> (c: Context)
        ensures
            c == self.spec_and_return(on),
    {
        Context { has_return: on, ..self }
    }

    pub fn union_yield_if(self, on: bool) -> (c: Context)
        ensures
            c == self.spec_union_yield_if(on),
    {
        Context { has_yield: self.has_yield || on, ..self }
    }

    pub fn with(self, add: Context, remove: Context) -> (c: Context)
        ensures
            c == self.spec_with(add, remove),
    {
        Context {
            has_in: (self.has_in || add.has_in) && !remove.has_in,
            has_await: (self.has_await || add.has_await) && !remove.has_await,
            has_yield: (self.has_yield || add.has_yield) && !remove.has_yield,
            has_return: (self.has_return || add.has_return) && !remove.has_return,
        }
    }
}

/// Restoring the caller's axes after a function was entered and any set
/// derived from the entered one by changing only `return` was used gives the
/// caller's set back: nothing of the function's own `await` and `yield`
/// legality leaks out.
pub proof fn lemma_restore_after_function(
    outer: Context,
    is_async: bool,
    generator: bool,
)
    ensures
        outer.spec_restore_onto(outer.spec_enter_function(is_async, generator)) == outer,
{
}

/// Forcing `yield` for an argument and then putting the earlier legality back
/// leaves the set as it was.
pub proof fn lemma_yield_forced_then_restored(ctx: Context)
    ensures
        ctx.spec_union_yield_if(true).spec_and_yield(ctx.has_yield) == ctx,
{
}

} // verus!
