//! A bounded stack of values: what was pushed last is pulled first.

use vstd::prelude::*;
use vstd::std_specs::cmp::PartialEqSpec;

verus! {

/// At most `N` values of type `T`.
pub struct Queue<T, const N: usize> {
    data: Vec<T>,
}

impl<T, const N: usize> View for Queue<T, N> {
    type V = Seq<T>;

    /// The values, the oldest first.
    closed spec fn view(&self) -> Seq<T> {
        self.data@
    }
}

impl<T: Copy + PartialEq, const N: usize> Queue<T, N> {
    /// A queue never holds more than `N` values.
    pub open spec fn wf(&self) -> bool {
        self@.len() <= N
    }

    /// True if the queue holds a value that `==` finds equal to `val`.
    pub open spec fn holds(&self, val: T) -> bool {
        exists|i: int| 0 <= i < self@.len() && #[trigger] self@[i].eq_spec(&val)
    }

    pub fn new() -> (queue: Self)
        ensures
            queue.wf(),
            queue@ == Seq::<T>::empty(),
    {
        Queue { data: Vec::new() }
    }

    pub fn len(&self) -> (n: usize)
        ensures
            n == self@.len(),
    {
        self.data.len()
    }

    /// Puts `val` on top. A full queue stays as it is and hands `val` back.
    pub fn push(&mut self, val: T) -> (rejected: Option<T>)
        requires
            old(self).wf(),
        ensures
            final(self).wf(),
            old(self)@.len() < N ==> rejected is None && final(self)@ == old(self)@.push(val),
            old(self)@.len() >= N ==> rejected == Some(val) && final(self)@ == old(self)@,
    {
        if self.data.len() < N {
            self.data.push(val);
            None
        } else {
            Some(val)
        }
    }

    /// The values, the oldest first.
    pub fn iter(&self) -> (values: Vec<T>)
        ensures
            values@ == self@,
    {
        let mut values: Vec<T> = Vec::new();
        let mut i: usize = 0;
        while i < self.data.len()
            invariant
                i <= self.data@.len(),
                values@ == self.data@.take(i as int),
            decreases self.data@.len() - i,
        {
            values.push(self.data[i]);
            assert(self.data@.take(i + 1) =~= self.data@.take(i as int).push(self.data@[i as int]));
            i += 1;
        }
        assert(self.data@.take(self.data@.len() as int) =~= self.data@);
        values
    }

    /// Puts `val` on top unless the queue holds an equal value already.
    pub fn push_unique(&mut self, val: T) -> (rejected: Option<T>)
        requires
            old(self).wf(),
            T::obeys_eq_spec(),
        ensures
            final(self).wf(),
            !old(self).holds(val) && old(self)@.len() < N ==> rejected is None && final(self)@
                == old(self)@.push(val),
            !old(self).holds(val) && old(self)@.len() >= N ==> rejected == Some(val) && final(self)@ == old(self)@,
            old(self).holds(val) ==> rejected is None && final(self)@ == old(self)@,
    {
        let mut i: usize = 0;
        while i < self.data.len()
            invariant
                i <= self.data@.len(),
                T::obeys_eq_spec(),
                self.wf(),
                self.data@ == old(self).data@,
                forall|k: int| 0 <= k < i ==> !(#[trigger] self.data@[k]).eq_spec(&val),
            decreases self.data@.len() - i,
        {
            if self.data[i] == val {
                return None;
            }
            i += 1;
        }
        self.push(val)
    }

    /// Takes the value on top, if there is one.
    pub fn pull(&mut self) -> (value: Option<T>)
        requires
            old(self).wf(),
        ensures
            final(self).wf(),
            match value {
                Some(top) => old(self)@.len() > 0 && top == old(self)@.last() && final(self)@ == old(
                    self,
                )@.drop_last(),
                None => old(self)@.len() == 0 && final(self)@ == old(self)@,
            },
    {
        self.data.pop()
    }
}

} // verus!
