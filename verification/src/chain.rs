use vstd::prelude::*;

verus! {

/// A singly-linked list used for the queues an entity carries (its update
/// script, its message inbox, recorded input states).
///
/// Unlike a growable array, a `Chain` is an algebraic value: the state after
/// prepending or popping is a term built from the old one, so the world's
/// deferred-effect contracts can name entity states exactly.
pub enum Chain<T> {
    End,
    Link(T, Box<Chain<T>>),
}

impl<T> Chain<T> {
    /// The elements of this chain, front first.
    pub open spec fn to_seq(self) -> Seq<T>
        decreases self,
    {
        match self {
            Chain::End => Seq::empty(),
            Chain::Link(head, rest) => seq![head] + rest.to_seq(),
        }
    }

    /// An empty chain.
    pub fn empty() -> (c: Self)
        ensures
            c == Chain::<T>::End,
    {
        Chain::End
    }

    /// The chain with `value` in front of `self`.
    pub fn prepend(self, value: T) -> (c: Self)
        ensures
            c == Chain::Link(value, Box::new(self)),
    {
        Chain::Link(value, Box::new(self))
    }

    /// Pops the front element, leaving the rest.
    pub fn take_front(&mut self) -> (r: Option<T>)
        ensures
            match *old(self) {
                Chain::End => r is None && *final(self) == Chain::<T>::End,
                Chain::Link(head, rest) => r == Option::Some(head) && *final(self) == *rest,
            },
    {
        let mut taken = Chain::End;
        core::mem::swap(self, &mut taken);
        match taken {
            Chain::End => Option::None,
            Chain::Link(head, rest) => {
                *self = *rest;
                Option::Some(head)
            },
        }
    }

    /// A borrow of the front element, if any.
    pub fn front(&self) -> (r: Option<&T>)
        ensures
            match r {
                Option::Some(head) => self.to_seq().len() > 0 && *head == self.to_seq()[0],
                Option::None => self.to_seq().len() == 0,
            },
    {
        match self {
            Chain::End => Option::None,
            Chain::Link(head, _) => Option::Some(head),
        }
    }
}

} // verus!
