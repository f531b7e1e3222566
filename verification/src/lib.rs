//! An optional owned heap value behind a single swappable slot.
//!
//! `BoxSwap<T>` holds at most one heap-allocated value of type `T`. Its
//! contents change only through swap-family operations, each of which
//! installs new contents and hands the previous contents back to the caller,
//! so that every value stored into the cell is owned by exactly one party at
//! a time and is released exactly once.

use vstd::multiset::Multiset;
use vstd::prelude::*;

verus! {

/// The contents denoted by a slot value: nothing for an empty slot, or the
/// value behind the box.
pub open spec fn opt_val<T>(v: Option<Box<T>>) -> Option<T> {
    match v {
        Option::None => Option::None,
        Option::Some(b) => Option::Some(*b),
    }
}

/// What an exchange on the slot hands back: exactly the contents the slot
/// held immediately before, whatever was installed. Every swap-family
/// operation states its result through this one function, so the
/// ownership-transfer protocol is pinned down in a single place.
pub open spec fn swap_returns<T>(before: Option<T>, installed: Option<T>) -> Option<T> {
    before
}

/// What an exchange on the slot leaves behind: exactly the contents
/// installed, whatever was there before.
pub open spec fn swap_leaves<T>(before: Option<T>, installed: Option<T>) -> Option<T> {
    installed
}

/// A cell holding at most one owned heap value.
///
/// The contents change only through a single exchange: new contents go in,
/// previous contents come out, owned by the caller. `swap`, `store` and
/// `take` are the swap family proper; `swap_mut`, `store_mut` and
/// `take_mut` are their exclusive-access fast-path equivalents and behave
/// identically for the same sequence of calls. Here both families take
/// exclusive access — the verifier reasons about mutation only through
/// exclusive borrows — and each pair carries one contract, stated over
/// `swap_returns` and `swap_leaves`.
pub struct BoxSwap<T> {
    slot: Option<Box<T>>,
}

impl<T> View for BoxSwap<T> {
    type V = Option<T>;

    /// A cell is abstractly the contents of its slot: `None` when empty,
    /// `Some` of the held value otherwise.
    closed spec fn view(&self) -> Option<T> {
        opt_val(self.slot)
    }
}

impl<T> BoxSwap<T> {
    /// Constructs a cell holding nothing. No allocation is performed.
    pub fn empty() -> (cell: Self)
        ensures
            cell@ == Option::<T>::None,
    {
        BoxSwap { slot: None }
    }

    /// Constructs a cell holding `value`; the cell becomes its sole owner.
    pub fn with_value(value: Box<T>) -> (cell: Self)
        ensures
            cell@ == Option::Some(*value),
    {
        BoxSwap { slot: Some(value) }
    }

    /// Stores `value`, returning the previous contents; the caller becomes
    /// their sole owner.
    pub fn swap(&mut self, value: Option<Box<T>>) -> (prev: Option<Box<T>>)
        ensures
            opt_val(prev) == swap_returns(old(self)@, opt_val(value)),
            final(self)@ == swap_leaves(old(self)@, opt_val(value)),
    {
        self.swap_mut(value)
    }

    /// Stores `Some(value)`, dropping the previous contents. The previous
    /// value, if any, is released here, exactly once.
    pub fn store(&mut self, value: Box<T>)
        ensures
            final(self)@ == swap_leaves(old(self)@, Option::Some(*value)),
    {
        let _prev = self.swap(Some(value));
    }

    /// Takes the contents, leaving the cell empty; the caller becomes their
    /// sole owner.
    pub fn take(&mut self) -> (prev: Option<Box<T>>)
        ensures
            opt_val(prev) == swap_returns(old(self)@, Option::<T>::None),
            final(self)@ == swap_leaves(old(self)@, Option::<T>::None),
    {
        self.swap(None)
    }

    /// Consumes the cell, returning the wrapped value; no other access is
    /// possible, since the cell no longer exists afterwards.
    pub fn into_inner(self) -> (prev: Option<Box<T>>)
        ensures
            opt_val(prev) == swap_returns(self@, Option::<T>::None),
    {
        self.slot
    }

    /// Gets a mutable reference to the held value without removing
    /// ownership from the cell; an empty cell yields nothing.
    pub fn get_mut(&mut self) -> (r: Option<&mut T>)
        ensures
            (match old(self)@ {
                Option::None => r is None && final(self)@ == Option::<T>::None,
                Option::Some(v) => r is Some && *r.unwrap() == v && final(self)@
                    == Option::Some(*final(r.unwrap())),
            }),
    {
        match &mut self.slot {
            Option::Some(b) => Option::Some(&mut **b),
            Option::None => Option::None,
        }
    }

    /// `BoxSwap::swap` under exclusive access.
    pub fn swap_mut(&mut self, value: Option<Box<T>>) -> (prev: Option<Box<T>>)
        ensures
            opt_val(prev) == swap_returns(old(self)@, opt_val(value)),
            final(self)@ == swap_leaves(old(self)@, opt_val(value)),
    {
        let mut v = value;
        core::mem::swap(&mut self.slot, &mut v);
        v
    }

    /// `BoxSwap::store` under exclusive access.
    pub fn store_mut(&mut self, value: Box<T>)
        ensures
            final(self)@ == swap_leaves(old(self)@, Option::Some(*value)),
    {
        let _prev = self.swap_mut(Some(value));
    }

    /// `BoxSwap::take` under exclusive access.
    pub fn take_mut(&mut self) -> (prev: Option<Box<T>>)
        ensures
            opt_val(prev) == swap_returns(old(self)@, Option::<T>::None),
            final(self)@ == swap_leaves(old(self)@, Option::<T>::None),
    {
        self.swap_mut(None)
    }
}

impl<T> Default for BoxSwap<T> {
    /// The default cell holds nothing: the same contents, and so the same
    /// behaviour under every operation, as `BoxSwap::empty`.
    fn default() -> (cell: Self)
        ensures
            cell@ == Option::<T>::None,
    {
        BoxSwap::empty()
    }
}

impl<T> vstd::std_specs::convert::FromSpecImpl<Box<T>> for BoxSwap<T> {
    open spec fn obeys_from_spec() -> bool {
        true
    }

    closed spec fn from_spec(value: Box<T>) -> BoxSwap<T> {
        BoxSwap { slot: Option::Some(value) }
    }
}

impl<T> From<Box<T>> for BoxSwap<T> {
    /// Wraps an owned value: the same contents as `BoxSwap::with_value`.
    fn from(value: Box<T>) -> (cell: Self)
        ensures
            cell@ == Option::Some(*value),
    {
        BoxSwap { slot: Option::Some(value) }
    }
}

impl<T> vstd::std_specs::convert::FromSpecImpl<Option<Box<T>>> for BoxSwap<T> {
    open spec fn obeys_from_spec() -> bool {
        true
    }

    closed spec fn from_spec(value: Option<Box<T>>) -> BoxSwap<T> {
        BoxSwap { slot: value }
    }
}

impl<T> From<Option<Box<T>>> for BoxSwap<T> {
    /// An absent value maps to the empty cell, a present one to a cell
    /// owning it.
    fn from(value: Option<Box<T>>) -> (cell: Self)
        ensures
            cell@ == opt_val(value),
    {
        BoxSwap { slot: value }
    }
}

/// Swap correctness: an exchange hands back exactly the previous contents
/// and leaves exactly the installed contents, for every combination of
/// presence on either side.
pub proof fn lemma_swap_correct<T>(before: Option<T>, installed: Option<T>)
    ensures
        swap_returns(before, installed) == before,
        swap_leaves(before, installed) == installed,
{
}

/// No duplication, no loss: one exchange redistributes exactly the two
/// contents involved — taken together, what the caller receives and what
/// the slot keeps are the previous and the installed contents, each
/// appearing exactly once.
pub proof fn lemma_exchange_conserves_values<T>(before: Option<T>, installed: Option<T>)
    ensures
        Multiset::<Option<T>>::empty().insert(swap_returns(before, installed)).insert(
            swap_leaves(before, installed),
        ) == Multiset::<Option<T>>::empty().insert(before).insert(installed),
{
}

/// Taking the contents and then storing `x` hands back the same previous
/// contents and leaves the same final contents as a single swap installing
/// `x`.
pub proof fn lemma_take_then_store_is_swap<T>(before: Option<T>, x: T)
    ensures
        swap_returns(before, Option::<T>::None) == swap_returns(before, Option::Some(x)),
        swap_leaves(swap_leaves(before, Option::<T>::None), Option::Some(x)) == swap_leaves(
            before,
            Option::Some(x),
        ),
{
}

/// Round trip: a final take on a cell constructed over `x` yields `x` back,
/// and one on a cell constructed empty yields nothing.
pub proof fn lemma_round_trip<T>(x: T)
    ensures
        swap_returns(Option::Some(x), Option::<T>::None) == Option::Some(x),
        swap_returns(Option::<T>::None, Option::<T>::None) == Option::<T>::None,
{
}

} // verus!
