//! What holds of every context.
//!
//! The first laws speak of [`Context`] and [`EmpContext`] with items of any
//! type, and are stated over the specification functions of the three
//! capabilities. A law that speaks of "a container" is stated twice in one
//! lemma: of a node of any shape, and of the empty container.
//!
//! The last ones speak of containers of any shape over the declared items, by
//! way of their logs: see [`crate::context::log`].
use crate::auth::{AuthData, Authorization};
use crate::context::log::{
    differ, lemma_position, lemma_position_is, position, Declared, Holds, Item,
};
use crate::context::{Context, EmpContext, Has, Pop, Push};
use crate::XSpanIdString;
use vstd::prelude::*;

verus! {

/// Pushing an item and then taking out an item of its type gives back that
/// item, and the container as it was before.
pub proof fn lemma_pop_of_push<T, U, C>(c: Context<U, C>, x: T)
    ensures
        Pop::<T>::popped(c.pushed(x)) == (x, c),
        Pop::<T>::popped(EmpContext.pushed(x)) == (x, EmpContext),
{
}

/// What was pushed last is what is read, and replacing it is as good as
/// having pushed the replacement.
pub proof fn lemma_item_of_push<T, U, C>(c: Context<U, C>, x: T, y: T)
    ensures
        Has::<T>::item(&c.pushed(x)) == x,
        Has::<T>::with_item(&c.pushed(x), y) == c.pushed(y),
        Has::<T>::item(&EmpContext.pushed(x)) == x,
        Has::<T>::with_item(&EmpContext.pushed(x), y) == EmpContext.pushed(y),
{
}

/// Items come out in the reverse of the order in which they went in: after
/// `a`, `b` and `d` were pushed in that order, `d` is taken out first, then
/// `b`, then `a`, and the container is then as it was at the start. The three
/// types need not differ.
pub proof fn lemma_pops_reverse_pushes<A, B, D, U, C>(c: Context<U, C>, a: A, b: B, d: D)
    ensures
        ({
            let full = c.pushed(a).pushed(b).pushed(d);
            let first = Pop::<D>::popped(full);
            let second = Pop::<B>::popped(first.1);
            let third = Pop::<A>::popped(second.1);
            first.0 == d && second.0 == b && third.0 == a && third.1 == c
        }),
        ({
            let full = EmpContext.pushed(a).pushed(b).pushed(d);
            let first = Pop::<D>::popped(full);
            let second = Pop::<B>::popped(first.1);
            let third = Pop::<A>::popped(second.1);
            first.0 == d && second.0 == b && third.0 == a && third.1 == EmpContext
        }),
{
}

/// Of two items of one type the later hides the earlier: it is the one read
/// and the one taken out, and once it is out the earlier one is read again.
pub proof fn lemma_later_hides_earlier<T, U, C>(c: Context<U, C>, earlier: T, later: T)
    ensures
        ({
            let both = c.pushed(earlier).pushed(later);
            let out = Pop::<T>::popped(both);
            &&& Has::<T>::item(&both) == later
            &&& out.0 == later
            &&& out.1 == c.pushed(earlier)
            &&& Has::<T>::item(&out.1) == earlier
        }),
        ({
            let both = EmpContext.pushed(earlier).pushed(later);
            let out = Pop::<T>::popped(both);
            &&& Has::<T>::item(&both) == later
            &&& out.0 == later
            &&& out.1 == EmpContext.pushed(earlier)
            &&& Has::<T>::item(&out.1) == earlier
        }),
{
}

/// That `c` answers for each of the three declared types, and with these
/// values.
pub open spec fn holds_each<C>(
    c: C,
    span: XSpanIdString,
    data: Option<AuthData>,
    auth: Option<Authorization>,
) -> bool where C: Has<XSpanIdString> + Has<Option<AuthData>> + Has<Option<Authorization>> {
    &&& <C as Has<XSpanIdString>>::obeys_has_spec()
    &&& <C as Has<Option<AuthData>>>::obeys_has_spec()
    &&& <C as Has<Option<Authorization>>>::obeys_has_spec()
    &&& Has::<XSpanIdString>::item(&c) == span
    &&& Has::<Option<AuthData>>::item(&c) == data
    &&& Has::<Option<Authorization>>::item(&c) == auth
}

/// The order of pushing does not matter to reading: a context that was given
/// one item of each declared type answers for each type with that item, in
/// whichever of the six orders they were pushed.
pub proof fn lemma_order_does_not_matter(
    span: XSpanIdString,
    data: Option<AuthData>,
    auth: Option<Authorization>,
)
    ensures
        holds_each(EmpContext.pushed(span).pushed(data).pushed(auth), span, data, auth),
        holds_each(EmpContext.pushed(span).pushed(auth).pushed(data), span, data, auth),
        holds_each(EmpContext.pushed(data).pushed(span).pushed(auth), span, data, auth),
        holds_each(EmpContext.pushed(data).pushed(auth).pushed(span), span, data, auth),
        holds_each(EmpContext.pushed(auth).pushed(span).pushed(data), span, data, auth),
        holds_each(EmpContext.pushed(auth).pushed(data).pushed(span), span, data, auth),
{
}

/// Pushing puts one entry in front of the log and leaves the rest of it.
pub proof fn lemma_push_extends_log<T: Declared, U: Declared, C: View<V = Seq<Item>>>(
    c: Context<U, C>,
    x: T,
)
    ensures
        c.pushed(x)@ == seq![x.entry()] + c@,
        EmpContext.pushed(x)@ == seq![x.entry()],
{
}

/// An item is read wherever it lies: if every entry of type `T` in the log of
/// a container is the entry of `x`, the container answers for `T` with `x`,
/// however many items of other types were pushed before and after it.
pub proof fn lemma_reads_wherever_it_lies<T: Declared, C: Holds<T>>(c: C, x: T)
    requires
        forall|i: int| 0 <= i < c@.len() && T::is_entry(#[trigger] c@[i]) ==> c@[i] == x.entry(),
    ensures
        c.item() == x,
{
    c.lemma_acts_on_outermost(x);
    c.item().lemma_entry(x);
    lemma_position::<T>(c@);
}

/// What was written is what is read, in a container of any shape.
pub proof fn lemma_reads_what_was_written<T: Declared, C: Holds<T>>(c: C, value: T)
    ensures
        c.with_item(value).item() == value,
{
    let written = c.with_item(value);
    let p = position::<T>(c@);
    c.lemma_acts_on_outermost(value);
    written.lemma_acts_on_outermost(value);
    value.lemma_entry(written.item());
    lemma_position::<T>(c@);
    lemma_position_is::<T>(written@, p);
}

/// Writing an item of one type leaves what is read of another type, in a
/// container of any shape.
pub proof fn lemma_writing_keeps_others<A: Declared, B: Declared, C: Holds<A> + Holds<B>>(
    c: C,
    value: A,
)
    requires
        differ::<A, B>(),
    ensures
        Has::<B>::item(&Has::<A>::with_item(&c, value)) == Has::<B>::item(&c),
{
    let written = Has::<A>::with_item(&c, value);
    let before = Has::<B>::item(&c);
    let after = Has::<B>::item(&written);
    let p = position::<B>(c@);
    Holds::<A>::lemma_acts_on_outermost(&c, value);
    Holds::<B>::lemma_acts_on_outermost(&c, before);
    Holds::<B>::lemma_acts_on_outermost(&written, before);
    before.lemma_entry(after);
    lemma_position::<B>(c@);
    assert(!B::is_entry(value.entry()));
    assert(!B::is_entry(Has::<A>::item(&c).entry()));
    lemma_position_is::<B>(written@, p);
}

/// Taking out an item of one type leaves what is read of another type, in a
/// container of any shape.
pub proof fn lemma_taking_keeps_others<A: Declared, B: Declared, C: Holds<A> + Holds<B>>(
    c: C,
) where <C as Pop<A>>::Result: Holds<B>
    requires
        differ::<A, B>(),
    ensures
        Has::<B>::item(&Pop::<A>::popped(c).1) == Has::<B>::item(&c),
{
    let left = Pop::<A>::popped(c).1;
    let taken = Has::<A>::item(&c);
    let before = Has::<B>::item(&c);
    let after = Has::<B>::item(&left);
    let pa = position::<A>(c@);
    let pb = position::<B>(c@);
    Holds::<A>::lemma_acts_on_outermost(&c, taken);
    Holds::<B>::lemma_acts_on_outermost(&c, before);
    Holds::<B>::lemma_acts_on_outermost(&left, before);
    before.lemma_entry(after);
    lemma_position::<B>(c@);
    assert(!B::is_entry(taken.entry()));
    lemma_position_is::<B>(
        left@,
        if pb < pa {
            pb
        } else {
            pb - 1
        },
    );
}

} // verus!
