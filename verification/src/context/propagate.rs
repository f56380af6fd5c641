//! How a node answers for the items beneath its head.
//!
//! Contexts are declared for three types of item: [`XSpanIdString`],
//! `Option<AuthData>` and `Option<Authorization>`. A node whose head is one of
//! them passes a request for either of the others on to its tail, so a context
//! answers for each of them wherever it lies in the nest, and whatever the
//! order in which the items were pushed. That takes the implementations below,
//! once for every ordered pair of distinct declared types. For a type beneath
//! itself there is none: [`Context`] answers for the type of its head with its
//! head.
use crate::auth::{AuthData, Authorization};
use crate::context::log::{lemma_position_beneath, position, Declared, Holds, Item};
use crate::context::{Context, Has, Pop};
use crate::XSpanIdString;
use vstd::prelude::*;

verus! {

/// Reads and writes the span identifier beneath credentials.
impl<C: Has<XSpanIdString>> Has<XSpanIdString> for Context<Option<AuthData>, C> {
    open spec fn obeys_has_spec() -> bool {
        C::obeys_has_spec()
    }

    open spec fn item(&self) -> XSpanIdString {
        self.tail.item()
    }

    open spec fn with_item(&self, value: XSpanIdString) -> Context<Option<AuthData>, C> {
        Context { head: self.head, tail: self.tail.with_item(value) }
    }

    fn get(&self) -> (r: &XSpanIdString) {
        self.tail.get()
    }

    fn get_mut(&mut self) -> (r: &mut XSpanIdString) {
        self.tail.get_mut()
    }

    fn set(&mut self, value: XSpanIdString) {
        self.tail.set(value);
    }
}

/// Reads and writes the credentials beneath a span identifier.
impl<C: Has<Option<AuthData>>> Has<Option<AuthData>> for Context<XSpanIdString, C> {
    open spec fn obeys_has_spec() -> bool {
        C::obeys_has_spec()
    }

    open spec fn item(&self) -> Option<AuthData> {
        self.tail.item()
    }

    open spec fn with_item(&self, value: Option<AuthData>) -> Context<XSpanIdString, C> {
        Context { head: self.head, tail: self.tail.with_item(value) }
    }

    fn get(&self) -> (r: &Option<AuthData>) {
        self.tail.get()
    }

    fn get_mut(&mut self) -> (r: &mut Option<AuthData>) {
        self.tail.get_mut()
    }

    fn set(&mut self, value: Option<AuthData>) {
        self.tail.set(value);
    }
}

/// Takes the span identifier from beneath credentials, which stay the head.
impl<C: Pop<XSpanIdString>> Pop<XSpanIdString> for Context<Option<AuthData>, C> {
    type Result = Context<Option<AuthData>, C::Result>;

    open spec fn obeys_pop_spec() -> bool {
        C::obeys_pop_spec()
    }

    open spec fn popped(self) -> (XSpanIdString, Context<Option<AuthData>, C::Result>) {
        let inner = self.tail.popped();
        (inner.0, Context { head: self.head, tail: inner.1 })
    }

    fn pop(self) -> (r: (XSpanIdString, Context<Option<AuthData>, C::Result>)) {
        let (value, tail) = self.tail.pop();
        (value, Context { head: self.head, tail })
    }
}

/// Takes the credentials from beneath a span identifier, which stays the head.
impl<C: Pop<Option<AuthData>>> Pop<Option<AuthData>> for Context<XSpanIdString, C> {
    type Result = Context<XSpanIdString, C::Result>;

    open spec fn obeys_pop_spec() -> bool {
        C::obeys_pop_spec()
    }

    open spec fn popped(self) -> (Option<AuthData>, Context<XSpanIdString, C::Result>) {
        let inner = self.tail.popped();
        (inner.0, Context { head: self.head, tail: inner.1 })
    }

    fn pop(self) -> (r: (Option<AuthData>, Context<XSpanIdString, C::Result>)) {
        let (value, tail) = self.tail.pop();
        (value, Context { head: self.head, tail })
    }
}

/// Beneath credentials, the span identifier lies one place further in
/// than in the tail.
impl<C: Holds<XSpanIdString>> Holds<XSpanIdString> for Context<Option<AuthData>, C> where
    <C as Pop<XSpanIdString>>::Result: View<V = Seq<Item>>,
 {
    proof fn lemma_acts_on_outermost(&self, value: XSpanIdString) {
        let p = position::<XSpanIdString>(self.tail@);
        self.tail.lemma_acts_on_outermost(value);
        lemma_position_beneath::<XSpanIdString>(self.head.entry(), self.tail@);
        assert(self.with_item(value)@ =~= self@.update(p + 1, value.entry()));
        assert(Pop::<XSpanIdString>::popped(*self).1@ =~= self@.remove(p + 1));
    }
}

/// Beneath a span identifier, the credentials lie one place further in
/// than in the tail.
impl<C: Holds<Option<AuthData>>> Holds<Option<AuthData>> for Context<XSpanIdString, C> where
    <C as Pop<Option<AuthData>>>::Result: View<V = Seq<Item>>,
 {
    proof fn lemma_acts_on_outermost(&self, value: Option<AuthData>) {
        let p = position::<Option<AuthData>>(self.tail@);
        self.tail.lemma_acts_on_outermost(value);
        lemma_position_beneath::<Option<AuthData>>(self.head.entry(), self.tail@);
        assert(self.with_item(value)@ =~= self@.update(p + 1, value.entry()));
        assert(Pop::<Option<AuthData>>::popped(*self).1@ =~= self@.remove(p + 1));
    }
}

/// Reads and writes the span identifier beneath an authorization.
impl<C: Has<XSpanIdString>> Has<XSpanIdString> for Context<Option<Authorization>, C> {
    open spec fn obeys_has_spec() -> bool {
        C::obeys_has_spec()
    }

    open spec fn item(&self) -> XSpanIdString {
        self.tail.item()
    }

    open spec fn with_item(&self, value: XSpanIdString) -> Context<Option<Authorization>, C> {
        Context { head: self.head, tail: self.tail.with_item(value) }
    }

    fn get(&self) -> (r: &XSpanIdString) {
        self.tail.get()
    }

    fn get_mut(&mut self) -> (r: &mut XSpanIdString) {
        self.tail.get_mut()
    }

    fn set(&mut self, value: XSpanIdString) {
        self.tail.set(value);
    }
}

/// Reads and writes the authorization beneath a span identifier.
impl<C: Has<Option<Authorization>>> Has<Option<Authorization>> for Context<XSpanIdString, C> {
    open spec fn obeys_has_spec() -> bool {
        C::obeys_has_spec()
    }

    open spec fn item(&self) -> Option<Authorization> {
        self.tail.item()
    }

    open spec fn with_item(&self, value: Option<Authorization>) -> Context<XSpanIdString, C> {
        Context { head: self.head, tail: self.tail.with_item(value) }
    }

    fn get(&self) -> (r: &Option<Authorization>) {
        self.tail.get()
    }

    fn get_mut(&mut self) -> (r: &mut Option<Authorization>) {
        self.tail.get_mut()
    }

    fn set(&mut self, value: Option<Authorization>) {
        self.tail.set(value);
    }
}

/// Takes the span identifier from beneath an authorization, which stays the head.
impl<C: Pop<XSpanIdString>> Pop<XSpanIdString> for Context<Option<Authorization>, C> {
    type Result = Context<Option<Authorization>, C::Result>;

    open spec fn obeys_pop_spec() -> bool {
        C::obeys_pop_spec()
    }

    open spec fn popped(self) -> (XSpanIdString, Context<Option<Authorization>, C::Result>) {
        let inner = self.tail.popped();
        (inner.0, Context { head: self.head, tail: inner.1 })
    }

    fn pop(self) -> (r: (XSpanIdString, Context<Option<Authorization>, C::Result>)) {
        let (value, tail) = self.tail.pop();
        (value, Context { head: self.head, tail })
    }
}

/// Takes the authorization from beneath a span identifier, which stays the head.
impl<C: Pop<Option<Authorization>>> Pop<Option<Authorization>> for Context<XSpanIdString, C> {
    type Result = Context<XSpanIdString, C::Result>;

    open spec fn obeys_pop_spec() -> bool {
        C::obeys_pop_spec()
    }

    open spec fn popped(self) -> (Option<Authorization>, Context<XSpanIdString, C::Result>) {
        let inner = self.tail.popped();
        (inner.0, Context { head: self.head, tail: inner.1 })
    }

    fn pop(self) -> (r: (Option<Authorization>, Context<XSpanIdString, C::Result>)) {
        let (value, tail) = self.tail.pop();
        (value, Context { head: self.head, tail })
    }
}

/// Beneath an authorization, the span identifier lies one place further in
/// than in the tail.
impl<C: Holds<XSpanIdString>> Holds<XSpanIdString> for Context<Option<Authorization>, C> where
    <C as Pop<XSpanIdString>>::Result: View<V = Seq<Item>>,
 {
    proof fn lemma_acts_on_outermost(&self, value: XSpanIdString) {
        let p = position::<XSpanIdString>(self.tail@);
        self.tail.lemma_acts_on_outermost(value);
        lemma_position_beneath::<XSpanIdString>(self.head.entry(), self.tail@);
        assert(self.with_item(value)@ =~= self@.update(p + 1, value.entry()));
        assert(Pop::<XSpanIdString>::popped(*self).1@ =~= self@.remove(p + 1));
    }
}

/// Beneath a span identifier, the authorization lies one place further in
/// than in the tail.
impl<C: Holds<Option<Authorization>>> Holds<Option<Authorization>> for Context<XSpanIdString, C> where
    <C as Pop<Option<Authorization>>>::Result: View<V = Seq<Item>>,
 {
    proof fn lemma_acts_on_outermost(&self, value: Option<Authorization>) {
        let p = position::<Option<Authorization>>(self.tail@);
        self.tail.lemma_acts_on_outermost(value);
        lemma_position_beneath::<Option<Authorization>>(self.head.entry(), self.tail@);
        assert(self.with_item(value)@ =~= self@.update(p + 1, value.entry()));
        assert(Pop::<Option<Authorization>>::popped(*self).1@ =~= self@.remove(p + 1));
    }
}

/// Reads and writes the credentials beneath an authorization.
impl<C: Has<Option<AuthData>>> Has<Option<AuthData>> for Context<Option<Authorization>, C> {
    open spec fn obeys_has_spec() -> bool {
        C::obeys_has_spec()
    }

    open spec fn item(&self) -> Option<AuthData> {
        self.tail.item()
    }

    open spec fn with_item(&self, value: Option<AuthData>) -> Context<Option<Authorization>, C> {
        Context { head: self.head, tail: self.tail.with_item(value) }
    }

    fn get(&self) -> (r: &Option<AuthData>) {
        self.tail.get()
    }

    fn get_mut(&mut self) -> (r: &mut Option<AuthData>) {
        self.tail.get_mut()
    }

    fn set(&mut self, value: Option<AuthData>) {
        self.tail.set(value);
    }
}

/// Reads and writes the authorization beneath credentials.
impl<C: Has<Option<Authorization>>> Has<Option<Authorization>> for Context<Option<AuthData>, C> {
    open spec fn obeys_has_spec() -> bool {
        C::obeys_has_spec()
    }

    open spec fn item(&self) -> Option<Authorization> {
        self.tail.item()
    }

    open spec fn with_item(&self, value: Option<Authorization>) -> Context<Option<AuthData>, C> {
        Context { head: self.head, tail: self.tail.with_item(value) }
    }

    fn get(&self) -> (r: &Option<Authorization>) {
        self.tail.get()
    }

    fn get_mut(&mut self) -> (r: &mut Option<Authorization>) {
        self.tail.get_mut()
    }

    fn set(&mut self, value: Option<Authorization>) {
        self.tail.set(value);
    }
}

/// Takes the credentials from beneath an authorization, which stays the head.
impl<C: Pop<Option<AuthData>>> Pop<Option<AuthData>> for Context<Option<Authorization>, C> {
    type Result = Context<Option<Authorization>, C::Result>;

    open spec fn obeys_pop_spec() -> bool {
        C::obeys_pop_spec()
    }

    open spec fn popped(self) -> (Option<AuthData>, Context<Option<Authorization>, C::Result>) {
        let inner = self.tail.popped();
        (inner.0, Context { head: self.head, tail: inner.1 })
    }

    fn pop(self) -> (r: (Option<AuthData>, Context<Option<Authorization>, C::Result>)) {
        let (value, tail) = self.tail.pop();
        (value, Context { head: self.head, tail })
    }
}

/// Takes the authorization from beneath credentials, which stay the head.
impl<C: Pop<Option<Authorization>>> Pop<Option<Authorization>> for Context<Option<AuthData>, C> {
    type Result = Context<Option<AuthData>, C::Result>;

    open spec fn obeys_pop_spec() -> bool {
        C::obeys_pop_spec()
    }

    open spec fn popped(self) -> (Option<Authorization>, Context<Option<AuthData>, C::Result>) {
        let inner = self.tail.popped();
        (inner.0, Context { head: self.head, tail: inner.1 })
    }

    fn pop(self) -> (r: (Option<Authorization>, Context<Option<AuthData>, C::Result>)) {
        let (value, tail) = self.tail.pop();
        (value, Context { head: self.head, tail })
    }
}

/// Beneath an authorization, the credentials lie one place further in
/// than in the tail.
impl<C: Holds<Option<AuthData>>> Holds<Option<AuthData>> for Context<Option<Authorization>, C> where
    <C as Pop<Option<AuthData>>>::Result: View<V = Seq<Item>>,
 {
    proof fn lemma_acts_on_outermost(&self, value: Option<AuthData>) {
        let p = position::<Option<AuthData>>(self.tail@);
        self.tail.lemma_acts_on_outermost(value);
        lemma_position_beneath::<Option<AuthData>>(self.head.entry(), self.tail@);
        assert(self.with_item(value)@ =~= self@.update(p + 1, value.entry()));
        assert(Pop::<Option<AuthData>>::popped(*self).1@ =~= self@.remove(p + 1));
    }
}

/// Beneath credentials, the authorization lies one place further in
/// than in the tail.
impl<C: Holds<Option<Authorization>>> Holds<Option<Authorization>> for Context<Option<AuthData>, C> where
    <C as Pop<Option<Authorization>>>::Result: View<V = Seq<Item>>,
 {
    proof fn lemma_acts_on_outermost(&self, value: Option<Authorization>) {
        let p = position::<Option<Authorization>>(self.tail@);
        self.tail.lemma_acts_on_outermost(value);
        lemma_position_beneath::<Option<Authorization>>(self.head.entry(), self.tail@);
        assert(self.with_item(value)@ =~= self@.update(p + 1, value.entry()));
        assert(Pop::<Option<Authorization>>::popped(*self).1@ =~= self@.remove(p + 1));
    }
}

} // verus!
