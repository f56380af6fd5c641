//! A context seen as a log.
//!
//! Whatever its type, a context over the declared items is a sequence of
//! entries, one for each push, the latest at index 0. That sequence is its
//! view. Reading, replacing and taking out an item of type `T` all act on one
//! entry of it, the outermost of type `T`, and leave every other entry where
//! it is: an item pushed later hides an earlier one of its type, and is all
//! that stands between that one and the reader.
//!
//! [`Holds`] states this of one container and one type, and its
//! implementations carry the proof from a node's tail to the node. The laws
//! that follow for containers of any shape are in [`crate::context::laws`].
use crate::auth::{AuthData, Authorization};
use crate::context::{Context, EmpContext, Has, Pop};
use crate::XSpanIdString;
use vstd::prelude::*;

verus! {

/// One entry of a log: an item of one of the declared types.
pub enum Item {
    SpanId(XSpanIdString),
    AuthData(Option<AuthData>),
    Authorization(Option<Authorization>),
}

/// A type of item that contexts are declared for.
pub trait Declared: Sized {
    /// This item as an entry of a log.
    spec fn entry(self) -> Item;

    /// Whether `e` is an item of this type.
    spec fn is_entry(e: Item) -> bool;

    /// An item's entry is of the item's type, and no other item has it.
    proof fn lemma_entry(self, other: Self)
        ensures
            Self::is_entry(self.entry()),
            self.entry() == other.entry() ==> self == other,
    ;
}

impl Declared for XSpanIdString {
    open spec fn entry(self) -> Item {
        Item::SpanId(self)
    }

    open spec fn is_entry(e: Item) -> bool {
        e is SpanId
    }

    proof fn lemma_entry(self, other: Self) {
    }
}

impl Declared for Option<AuthData> {
    open spec fn entry(self) -> Item {
        Item::AuthData(self)
    }

    open spec fn is_entry(e: Item) -> bool {
        e is AuthData
    }

    proof fn lemma_entry(self, other: Self) {
    }
}

impl Declared for Option<Authorization> {
    open spec fn entry(self) -> Item {
        Item::Authorization(self)
    }

    open spec fn is_entry(e: Item) -> bool {
        e is Authorization
    }

    proof fn lemma_entry(self, other: Self) {
    }
}

/// That no item of type `A` passes for one of type `B`: they are two of the
/// declared types, not one.
pub open spec fn differ<A: Declared, B: Declared>() -> bool {
    forall|a: A| !B::is_entry(#[trigger] a.entry())
}

/// The log of the empty container is empty.
impl View for EmpContext {
    type V = Seq<Item>;

    open spec fn view(&self) -> Seq<Item> {
        Seq::empty()
    }
}

/// The log of a node is the entry of its head, then the log of its tail.
impl<T: Declared, C: View<V = Seq<Item>>> View for Context<T, C> {
    type V = Seq<Item>;

    open spec fn view(&self) -> Seq<Item> {
        seq![self.head.entry()] + self.tail@
    }
}

/// The index of the outermost entry of type `T` in `log`, or the length of
/// `log` where it has none.
pub open spec fn position<T: Declared>(log: Seq<Item>) -> int
    decreases log.len(),
{
    if log.len() == 0 {
        0
    } else if T::is_entry(log[0]) {
        0
    } else {
        1 + position::<T>(log.drop_first())
    }
}

/// `position` is the index of an entry of type `T` unless it is the length
/// of `log`, and no entry before it is of type `T`.
pub proof fn lemma_position<T: Declared>(log: Seq<Item>)
    ensures
        0 <= position::<T>(log) <= log.len(),
        position::<T>(log) < log.len() ==> T::is_entry(log[position::<T>(log)]),
        forall|i: int| 0 <= i < position::<T>(log) ==> !T::is_entry(#[trigger] log[i]),
    decreases log.len(),
{
    if log.len() > 0 && !T::is_entry(log[0]) {
        let rest = log.drop_first();
        lemma_position::<T>(rest);
        assert forall|i: int| 0 <= i < position::<T>(log) implies !T::is_entry(
            #[trigger] log[i],
        ) by {
            if i > 0 {
                assert(log[i] == rest[i - 1]);
            }
        }
    }
}

/// An entry of type `T` with none of that type before it is the outermost.
pub proof fn lemma_position_is<T: Declared>(log: Seq<Item>, p: int)
    requires
        0 <= p < log.len(),
        T::is_entry(log[p]),
        forall|i: int| 0 <= i < p ==> !T::is_entry(#[trigger] log[i]),
    ensures
        position::<T>(log) == p,
{
    lemma_position::<T>(log);
}

/// Beneath an entry of another type, the outermost entry of type `T` is the
/// outermost one of the rest, one place further in.
pub proof fn lemma_position_beneath<T: Declared>(e: Item, rest: Seq<Item>)
    requires
        !T::is_entry(e),
    ensures
        position::<T>(seq![e] + rest) == 1 + position::<T>(rest),
{
    assert((seq![e] + rest).drop_first() =~= rest);
}

/// A container over the declared items that holds one of type `T`.
///
/// It is implemented for every context that was built from declared items and
/// has one of type `T` among them, at whatever depth.
pub trait Holds<T: Declared>: Has<T> + Pop<T, Result: View<V = Seq<Item>>> + View<
    V = Seq<Item>,
> {
    /// The capabilities for `T` are defined, and act on the outermost entry
    /// of type `T`: that is the item read and the item taken out, replacing
    /// changes that entry alone, and taking out removes that entry alone.
    proof fn lemma_acts_on_outermost(&self, value: T)
        ensures
            Self::obeys_has_spec(),
            Self::obeys_pop_spec(),
            0 <= position::<T>(self@) < self@.len(),
            self.item().entry() == self@[position::<T>(self@)],
            self.with_item(value)@ == self@.update(position::<T>(self@), value.entry()),
            (*self).popped().0 == self.item(),
            (*self).popped().1@ == self@.remove(position::<T>(self@)),
    ;
}

/// A node holds the type of its head, at index 0.
impl<T: Declared, C: View<V = Seq<Item>>> Holds<T> for Context<T, C> {
    proof fn lemma_acts_on_outermost(&self, value: T) {
        self.head.lemma_entry(value);
        assert(self@[0] == self.head.entry());
        assert(self.with_item(value)@ =~= self@.update(0, value.entry()));
        assert(self.tail@ =~= self@.remove(0));
    }
}

} // verus!
