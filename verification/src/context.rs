//! Contexts: the items that travel with a request from service to service.
//!
//! A context is built from [`EmpContext`] by [`Push::push`], one item at a
//! time, so its type records every item it holds. A service asks for an item
//! by type: `C: Has<T>` to read or replace it, `C: Pop<T>` to take it out,
//! `C: Push<T>` to add one. Which node of the nest answers is settled when the
//! program is compiled, so none of these calls can fail when it runs.
//!
//! What a call does is stated over four specification functions,
//! [`Has::item`], [`Has::with_item`], [`Pop::popped`] and [`Push::pushed`].
//! An implementation that defines them says so in `obeys_has_spec`,
//! `obeys_pop_spec` or `obeys_push_spec`, and is then held to them. Every
//! implementation in this crate does. One written elsewhere, without a proof,
//! leaves all of them as they are here, and nothing is claimed of it.
//!
//! - [`laws`] holds what follows for every context;
//! - [`log`] is the view of a context as the sequence of its items.
use vstd::prelude::*;

pub mod laws;
pub mod log;
mod propagate;

verus! {

/// A container in which an item of type `T` can be read and replaced.
pub trait Has<T>: Sized {
    /// Whether this implementation says what `item` and `with_item` are.
    /// One that does is held to them by the contracts below.
    open spec fn obeys_has_spec() -> bool {
        false
    }

    /// The value of type `T` that this container answers with.
    open spec fn item(&self) -> T {
        arbitrary()
    }

    /// This container with `value` in the slot that `item` reads, and every
    /// other slot as it is.
    open spec fn with_item(&self, value: T) -> Self {
        arbitrary()
    }

    /// Borrows the item.
    fn get(&self) -> (r: &T)
        ensures
            Self::obeys_has_spec() ==> *r == self.item(),
    ;

    /// Borrows the item for writing. What the caller leaves behind the
    /// reference is what the container then holds in that slot, and answers
    /// with.
    fn get_mut(&mut self) -> (r: &mut T)
        ensures
            Self::obeys_has_spec() ==> *r == old(self).item(),
            Self::obeys_has_spec() ==> *final(self) == old(self).with_item(*final(r)),
            Self::obeys_has_spec() ==> final(self).item() == *final(r),
    ;

    /// Replaces the item: the container then answers with `value`.
    fn set(&mut self, value: T)
        ensures
            Self::obeys_has_spec() ==> *final(self) == old(self).with_item(value),
            Self::obeys_has_spec() ==> final(self).item() == value,
    ;
}

/// A container from which an item of type `T` can be taken out.
pub trait Pop<T>: Sized {
    /// The type of the container that is left.
    type Result;

    /// Whether this implementation says what `popped` is.
    open spec fn obeys_pop_spec() -> bool {
        false
    }

    /// The item that leaves, and the container without it.
    open spec fn popped(self) -> (T, Self::Result) {
        arbitrary()
    }

    /// Takes the item out and hands back what is left.
    fn pop(self) -> (r: (T, Self::Result))
        ensures
            Self::obeys_pop_spec() ==> r == self.popped(),
    ;
}

/// A container to which an item of type `T` can be added.
pub trait Push<T>: Sized {
    /// The type of the container with the item in it.
    type Result;

    /// Whether this implementation says what `pushed` is.
    open spec fn obeys_push_spec() -> bool {
        false
    }

    /// The container with `item` added.
    open spec fn pushed(self, item: T) -> Self::Result {
        arbitrary()
    }

    /// Adds the item.
    fn push(self, item: T) -> (r: Self::Result)
        ensures
            Self::obeys_push_spec() ==> r == self.pushed(item),
    ;
}

/// The empty container, from which every context is built. It holds nothing,
/// so nothing can be read from it or taken out of it.
#[derive(Debug)]
pub struct EmpContext;

/// One item around the container that it was pushed onto.
#[derive(Debug)]
pub struct Context<T, C> {
    /// The item pushed last.
    pub head: T,
    /// The container as it was before that push.
    pub tail: C,
}

impl Clone for EmpContext {
    /// The empty container again.
    fn clone(&self) -> (r: EmpContext)
        ensures
            r == *self,
    {
        EmpContext
    }
}

impl<T: Clone, C: Clone> Clone for Context<T, C> {
    /// A clone of the head around a clone of the tail.
    fn clone(&self) -> (r: Context<T, C>)
        ensures
            cloned(self.head, r.head),
            cloned(self.tail, r.tail),
    {
        Context { head: self.head.clone(), tail: self.tail.clone() }
    }
}

impl Default for EmpContext {
    /// The empty container.
    fn default() -> (r: EmpContext)
        ensures
            r == EmpContext,
    {
        EmpContext
    }
}

impl<T: Default, C: Default> Default for Context<T, C> {
    /// The default item around the default tail.
    fn default() -> (r: Context<T, C>)
        ensures
            call_ensures(T::default, (), r.head),
            call_ensures(C::default, (), r.tail),
    {
        Context { head: T::default(), tail: C::default() }
    }
}

/// Anything can be pushed onto the empty container.
impl<U> Push<U> for EmpContext {
    type Result = Context<U, EmpContext>;

    open spec fn obeys_push_spec() -> bool {
        true
    }

    open spec fn pushed(self, item: U) -> Context<U, EmpContext> {
        Context { head: item, tail: self }
    }

    fn push(self, item: U) -> (r: Context<U, EmpContext>) {
        Context { head: item, tail: self }
    }
}

/// A node answers for the type of its own head with its head, whatever lies
/// beneath: an item pushed later hides an earlier one of the same type.
impl<T, C> Has<T> for Context<T, C> {
    open spec fn obeys_has_spec() -> bool {
        true
    }

    open spec fn item(&self) -> T {
        self.head
    }

    open spec fn with_item(&self, value: T) -> Context<T, C> {
        Context { head: value, tail: self.tail }
    }

    fn get(&self) -> (r: &T) {
        &self.head
    }

    fn get_mut(&mut self) -> (r: &mut T) {
        &mut self.head
    }

    fn set(&mut self, value: T) {
        self.head = value;
    }
}

/// Taking out the type of the head unwraps the node: what is left is the
/// tail, with an earlier item of the same type in reach again.
impl<T, C> Pop<T> for Context<T, C> {
    type Result = C;

    open spec fn obeys_pop_spec() -> bool {
        true
    }

    open spec fn popped(self) -> (T, C) {
        (self.head, self.tail)
    }

    fn pop(self) -> (r: (T, C)) {
        (self.head, self.tail)
    }
}

/// Anything can be pushed onto a node, a second item of a type it holds
/// already too.
impl<C, T, U> Push<U> for Context<T, C> {
    type Result = Context<U, Context<T, C>>;

    open spec fn obeys_push_spec() -> bool {
        true
    }

    open spec fn pushed(self, item: U) -> Context<U, Context<T, C>> {
        Context { head: item, tail: self }
    }

    fn push(self, item: U) -> (r: Context<U, Context<T, C>>) {
        Context { head: item, tail: self }
    }
}

/// A handler together with the context of the request it is to serve, for
/// call sites that take one argument.
#[derive(Debug)]
pub struct ContextWrapper<'a, T, C> {
    api: &'a T,
    context: C,
}

impl<'a, T, C> ContextWrapper<'a, T, C> {
    /// The handler that was bound.
    pub closed spec fn spec_api(&self) -> &T {
        self.api
    }

    /// The context that was bound.
    pub closed spec fn spec_context(&self) -> &C {
        &self.context
    }

    /// Binds a handler and a context.
    pub fn new(api: &'a T, context: C) -> (w: ContextWrapper<'a, T, C>)
        ensures
            w.api() == api,
            w.context() == context,
    {
        ContextWrapper { api, context }
    }

    /// Borrows the handler.
    #[verifier::when_used_as_spec(spec_api)]
    pub fn api(&self) -> (r: &T)
        ensures
            r == self.spec_api(),
    {
        self.api
    }

    /// Borrows the context.
    #[verifier::when_used_as_spec(spec_context)]
    pub fn context(&self) -> (r: &C)
        ensures
            r == self.spec_context(),
    {
        &self.context
    }
}

/// For handler types: `handler.with_context(context)` in place of
/// `ContextWrapper::new(&handler, context)`.
pub trait ContextWrapperExt<'a, C> where Self: Sized {
    /// Binds this handler to a context. Reading the pair gives both back.
    fn with_context(self: &'a Self, context: C) -> (w: ContextWrapper<'a, Self, C>)
        ensures
            w.api() == self,
            w.context() == context,
    {
        ContextWrapper::<Self, C>::new(self, context)
    }
}

} // verus!
