//! A bounded list of the most recent items.

use std::collections::VecDeque;
use vstd::prelude::*;

verus! {

/// What becomes of `items`, newest first, when `elem` is put in front and at
/// most `capacity` items may stay: the item that has to go, if one has to, and
/// the items that stay.
pub open spec fn pushed<T>(items: Seq<T>, elem: T, capacity: usize) -> (Option<T>, Seq<T>) {
    let grown = seq![elem] + items;
    if grown.len() > capacity {
        (Some(grown.last()), grown.drop_last())
    } else {
        (None, grown)
    }
}

/// The most recent items, newest first, never more than a fixed number of
/// them.
#[derive(Debug, Eq, PartialEq, Hash)]
pub struct HistoryList<T> {
    max_capacity: usize,
    data: VecDeque<T>,
}

impl<T> View for HistoryList<T> {
    type V = Seq<T>;

    /// The items, newest first.
    closed spec fn view(&self) -> Seq<T> {
        self.data@
    }
}

impl<T> HistoryList<T> {
    #[verifier::type_invariant]
    spec fn within_capacity(self) -> bool {
        self.data@.len() <= self.max_capacity
    }

    /// How many items the list holds at most.
    pub closed spec fn capacity(&self) -> usize {
        self.max_capacity
    }

    /// An empty list that will hold up to `max_capacity` items.
    pub fn new(max_capacity: usize) -> (list: Self)
        ensures
            list@ == Seq::<T>::empty(),
            list.capacity() == max_capacity,
    {
        HistoryList { max_capacity, data: VecDeque::new() }
    }

    /// Puts `elem` in front as the newest item.
    ///
    /// A list that is full gives up its oldest item and returns it. A list of
    /// capacity zero returns `elem` itself.
    pub fn push(&mut self, elem: T) -> (dropped: Option<T>)
        ensures
            final(self).capacity() == old(self).capacity(),
            final(self)@.len() <= final(self).capacity(),
            (dropped, final(self)@) == pushed(old(self)@, elem, old(self).capacity()),
    {
        proof {
            use_type_invariant(&*self);
        }
        let mut data: VecDeque<T> = VecDeque::new();
        core::mem::swap(&mut self.data, &mut data);
        data.push_front(elem);
        let dropped = if data.len() > self.max_capacity {
            data.pop_back()
        } else {
            None
        };
        self.data = data;
        dropped
    }

    /// Takes the newest item out of the list.
    pub fn pop_newest(&mut self) -> (newest: Option<T>)
        ensures
            final(self).capacity() == old(self).capacity(),
            old(self)@.len() == 0 ==> newest is None && final(self)@ == old(self)@,
            old(self)@.len() > 0 ==> newest == Some(old(self)@[0]) && final(self)@ == old(
                self,
            )@.drop_first(),
    {
        proof {
            use_type_invariant(&*self);
        }
        let mut data: VecDeque<T> = VecDeque::new();
        core::mem::swap(&mut self.data, &mut data);
        let newest = data.pop_front();
        self.data = data;
        newest
    }

    /// The newest item, if the list holds any.
    pub fn newest(&self) -> (newest: Option<&T>)
        ensures
            self@.len() == 0 ==> newest is None,
            self@.len() > 0 ==> newest == Some(&self@[0]),
    {
        if self.data.len() > 0 {
            Some(&self.data[0])
        } else {
            None
        }
    }
}

} // verus!
