use vstd::prelude::*;

verus! {

pub const CAPACITY: usize = 16;

/// A FIFO queue of at most 16 elements stored in a fixed ring buffer.
#[derive(Debug)]
pub struct ArrayQueue<T> {
    arr: [T; 16],
    start: usize,
    len: usize,
}

impl<T> ArrayQueue<T> {
    #[verifier::type_invariant]
    spec fn inv(self) -> bool {
        self.start < 16 && self.len <= 16
    }

    /// The queued elements, front first.
    pub closed spec fn spec_elements(self) -> Seq<T> {
        Seq::new(self.len as nat, |i: int| self.arr@[(self.start + i) % 16])
    }
}

impl<T> View for ArrayQueue<T> {
    type V = Seq<T>;

    open spec fn view(&self) -> Seq<T> {
        self.spec_elements()
    }
}

impl<T: Copy + Default> ArrayQueue<T> {
    /// The queue's capacity.
    pub fn capacity() -> (r: usize)
        ensures
            r == 16,
    {
        CAPACITY
    }

    /// An empty queue.
    pub fn new() -> (r: Self)
        ensures
            r@ == Seq::<T>::empty(),
    {
        let d = T::default();
        let r = Self { arr: [d; 16], start: 0, len: 0 };
        assert(r@ =~= Seq::<T>::empty());
        r
    }

    /// The number of queued elements.
    pub fn len(&self) -> (r: usize)
        ensures
            r == self@.len(),
            r <= 16,
    {
        proof {
            use_type_invariant(self);
        }
        self.len
    }

    /// Whether the queue is empty.
    pub fn is_empty(&self) -> (r: bool)
        ensures
            r == (self@.len() == 0),
    {
        self.len == 0
    }

    /// The front element without removing it.
    pub fn front(&self) -> (r: Option<T>)
        ensures
            r == (if self@.len() == 0 { None } else { Some(self@[0]) }),
    {
        proof {
            use_type_invariant(self);
        }
        if self.len == 0 {
            return None;
        }
        Some(self.arr[self.start])
    }

    /// Remove and return the front element.
    pub fn pop_front(&mut self) -> (r: Option<T>)
        ensures
            old(self)@.len() == 0 ==> r is None && final(self)@ == old(self)@,
            old(self)@.len() > 0 ==> r == Some(old(self)@[0]) && final(self)@ == old(self)@.drop_first(),
    {
        proof {
            use_type_invariant(&*self);
        }
        if self.len == 0 {
            return None;
        }
        let front = self.arr[self.start];
        let ghost before = self@;
        self.start = (self.start + 1) % CAPACITY;
        self.len = self.len - 1;
        assert(self@ =~= before.drop_first());
        Some(front)
    }

    /// Append an element at the back.
    pub fn push_back(&mut self, value: T)
        requires
            old(self)@.len() < 16,
        ensures
            final(self)@ == old(self)@.push(value),
    {
        proof {
            use_type_invariant(&*self);
        }
        let ghost before = self@;
        let idx = (self.start + self.len) % CAPACITY;
        self.arr[idx] = value;
        self.len = self.len + 1;
        assert(self@ =~= before.push(value));
    }

    /// Append a slice of elements at the back, in order.
    pub fn extend_back(&mut self, values: &[T])
        requires
            old(self)@.len() + values@.len() <= 16,
        ensures
            final(self)@ == old(self)@ + values@,
    {
        let mut i: usize = 0;
        while i < values.len()
            invariant
                0 <= i <= values@.len(),
                old(self)@.len() + values@.len() <= 16,
                self@ == old(self)@ + values@.subrange(0, i as int),
            decreases values@.len() - i,
        {
            let ghost before = self@;
            self.push_back(values[i]);
            assert(values@.subrange(0, i + 1) =~= values@.subrange(0, i as int).push(values@[i as int]));
            i = i + 1;
        }
        assert(values@.subrange(0, values@.len() as int) =~= values@);
    }

    /// Remove all elements.
    pub fn clear(&mut self)
        ensures
            final(self)@ == Seq::<T>::empty(),
    {
        proof {
            use_type_invariant(&*self);
        }
        self.start = 0;
        self.len = 0;
        assert(self@ =~= Seq::<T>::empty());
    }
}

impl<T: Copy> Clone for ArrayQueue<T> {
    fn clone(&self) -> (r: Self)
        ensures
            r@ == self@,
    {
        proof {
            use_type_invariant(self);
        }
        Self { arr: self.arr, start: self.start, len: self.len }
    }
}

} // verus!
