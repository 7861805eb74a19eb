//! Payloads handed out by a databus and the metadata that travels with them.
use vstd::prelude::*;

verus! {

/// Position of a payload within a data sequence.
#[derive(Debug, Clone, Copy, PartialEq, Eq, Structural)]
pub enum Position {
    /// A single, complete payload (not part of a sequence).
    Single,
    /// The first payload in a sequence.
    First,
    /// The last payload in a sequence.
    Last,
    /// A middle payload in a sequence.
    Middle,
}

impl Default for Position {
    fn default() -> (r: Self)
        ensures
            r == Position::Middle,
    {
        Position::Middle
    }
}

/// Metadata for payload data, describing stream properties.
#[derive(Debug, Clone, Copy, PartialEq, Eq, Structural)]
pub struct Metadata {
    /// Position of this payload in a sequence.
    pub position: Position,
}

impl Metadata {
    pub fn new(position: Position) -> (r: Self)
        ensures
            r.position == position,
    {
        Metadata { position }
    }
}

impl Default for Metadata {
    fn default() -> (r: Self)
        ensures
            r.position == Position::Middle,
    {
        Metadata { position: Position::Middle }
    }
}

} // verus!

verus! {

/// A readable payload acquired from a consumer's databus: the items handed
/// out and how many of them the reader marks as consumed.
pub struct ReadPayload<T> {
    data: Vec<T>,
    metadata: Metadata,
    consumed_len: usize,
}

impl<T> ReadPayload<T> {
    /// The metadata carried with the payload.
    pub closed spec fn meta(&self) -> Metadata {
        self.metadata
    }

    pub fn metadata(&self) -> (m: Metadata)
        ensures
            m == self.meta(),
    {
        self.metadata
    }

    /// The items of the payload.
    pub closed spec fn items(&self) -> Seq<T> {
        self.data@
    }

    /// How many items are marked as consumed.
    pub closed spec fn consumed(&self) -> usize {
        self.consumed_len
    }

    pub fn new(data: Vec<T>, metadata: Metadata) -> (r: Self)
        ensures
            r.items() == data@,
            r.meta() == metadata,
            r.consumed() == 0,
    {
        ReadPayload { data, metadata, consumed_len: 0 }
    }

    /// Marks `len` items as consumed, at most as many as the payload holds.
    pub fn commit(&mut self, len: usize)
        ensures
            final(self).consumed() == if len < old(self).items().len() { len as int } else { old(self).items().len() as int },
            final(self).items() == old(self).items(),
            final(self).meta() == old(self).meta(),
    {
        self.consumed_len = if len < self.data.len() { len } else { self.data.len() };
    }

    /// Marks every item of the payload as consumed.
    pub fn commit_all(&mut self)
        ensures
            final(self).consumed() == old(self).items().len(),
            final(self).items() == old(self).items(),
            final(self).meta() == old(self).meta(),
    {
        self.consumed_len = self.data.len();
    }

    pub fn position(&self) -> (p: Position)
        ensures
            p == self.meta().position,
    {
        self.metadata.position
    }

    pub fn len(&self) -> (n: usize)
        ensures
            n == self.items().len(),
    {
        self.data.len()
    }

    pub fn consumed_len(&self) -> (n: usize)
        ensures
            n == self.consumed(),
    {
        self.consumed_len
    }

    pub fn as_slice(&self) -> (s: &[T])
        ensures
            s@ == self.items(),
    {
        self.data.as_slice()
    }
}

/// A writable payload acquired from a producer's databus: the window the
/// producer may fill, the metadata it attaches and how much it commits.
pub struct WritePayload<T> {
    data: Vec<T>,
    metadata: Metadata,
    written_len: usize,
}

impl<T> WritePayload<T> {
    /// The metadata carried with the payload.
    pub closed spec fn meta(&self) -> Metadata {
        self.metadata
    }

    pub fn metadata(&self) -> (m: Metadata)
        ensures
            m == self.meta(),
    {
        self.metadata
    }

    /// The items of the window.
    pub closed spec fn items(&self) -> Seq<T> {
        self.data@
    }

    /// How many items are committed.
    pub closed spec fn written(&self) -> usize {
        self.written_len
    }

    /// A window over `data`, with default metadata and nothing committed.
    pub fn new(data: Vec<T>) -> (r: Self)
        ensures
            r.items() == data@,
            r.meta().position == Position::Middle,
            r.written() == 0,
    {
        WritePayload { data, metadata: Metadata::default(), written_len: 0 }
    }

    /// Commits `len` items, at most as many as the window holds.
    pub fn commit(&mut self, len: usize)
        ensures
            final(self).written() == if len < old(self).items().len() { len as int } else { old(self).items().len() as int },
            final(self).items() == old(self).items(),
            final(self).meta() == old(self).meta(),
    {
        self.written_len = if len < self.data.len() { len } else { self.data.len() };
    }

    /// Commits the whole window.
    pub fn commit_all(&mut self)
        ensures
            final(self).written() == old(self).items().len(),
            final(self).items() == old(self).items(),
            final(self).meta() == old(self).meta(),
    {
        self.written_len = self.data.len();
    }

    /// Sets the position of this payload within a sequence.
    pub fn set_position(&mut self, position: Position)
        ensures
            final(self).meta().position == position,
            final(self).items() == old(self).items(),
            final(self).written() == old(self).written(),
    {
        self.metadata.position = position;
    }

    pub fn len(&self) -> (n: usize)
        ensures
            n == self.items().len(),
    {
        self.data.len()
    }

    pub fn written_len(&self) -> (n: usize)
        ensures
            n == self.written(),
    {
        self.written_len
    }

    pub fn as_slice(&self) -> (s: &[T])
        ensures
            s@ == self.items(),
    {
        self.data.as_slice()
    }

    /// Stores `value` at index `i` of the window.
    pub fn set(&mut self, i: usize, value: T)
        requires
            i < old(self).items().len(),
        ensures
            final(self).items() == old(self).items().update(i as int, value),
            final(self).meta() == old(self).meta(),
            final(self).written() == old(self).written(),
    {
        self.data.set(i, value);
    }
}

impl<T: Copy> WritePayload<T> {
    /// Stores `value` in every item of the window.
    pub fn fill(&mut self, value: T)
        ensures
            final(self).items() == Seq::new(old(self).items().len(), |i: int| value),
            final(self).meta() == old(self).meta(),
            final(self).written() == old(self).written(),
    {
        let n = self.data.len();
        let mut i: usize = 0;
        while i < n
            invariant
                n == old(self).items().len(),
                self.items().len() == n,
                i <= n,
                forall|j: int| 0 <= j < i ==> self.items()[j] == value,
                self.meta() == old(self).meta(),
                self.written() == old(self).written(),
            decreases n - i,
        {
            self.set(i, value);
            i = i + 1;
        }
        assert(self.items() =~= Seq::new(old(self).items().len(), |i: int| value));
    }
}

/// A payload acquired for in-place transformation: the input items, which the
/// transformer overwrites, and how many items of output it commits.
pub struct TransformPayload<T> {
    data: Vec<T>,
    metadata: Metadata,
    transformed_len: usize,
}

impl<T> TransformPayload<T> {
    /// The metadata carried with the payload.
    pub closed spec fn meta(&self) -> Metadata {
        self.metadata
    }

    pub fn metadata(&self) -> (m: Metadata)
        ensures
            m == self.meta(),
    {
        self.metadata
    }

    /// The items of the payload.
    pub closed spec fn items(&self) -> Seq<T> {
        self.data@
    }

    /// How many items are committed.
    pub closed spec fn transformed(&self) -> usize {
        self.transformed_len
    }

    pub fn new(data: Vec<T>, metadata: Metadata) -> (r: Self)
        ensures
            r.items() == data@,
            r.meta() == metadata,
            r.transformed() == 0,
    {
        TransformPayload { data, metadata, transformed_len: 0 }
    }

    /// Commits `len` items of output, at most as many as the input held.
    pub fn commit(&mut self, len: usize)
        ensures
            final(self).transformed() == if len < old(self).items().len() { len as int } else { old(self).items().len() as int },
            final(self).items() == old(self).items(),
            final(self).meta() == old(self).meta(),
    {
        self.transformed_len = if len < self.data.len() { len } else { self.data.len() };
    }

    pub fn commit_all(&mut self)
        ensures
            final(self).transformed() == old(self).items().len(),
            final(self).items() == old(self).items(),
            final(self).meta() == old(self).meta(),
    {
        self.transformed_len = self.data.len();
    }

    pub fn len(&self) -> (n: usize)
        ensures
            n == self.items().len(),
    {
        self.data.len()
    }

    pub fn transformed_len(&self) -> (n: usize)
        ensures
            n == self.transformed(),
    {
        self.transformed_len
    }

    pub fn as_slice(&self) -> (s: &[T])
        ensures
            s@ == self.items(),
    {
        self.data.as_slice()
    }

    pub fn set(&mut self, i: usize, value: T)
        requires
            i < old(self).items().len(),
        ensures
            final(self).items() == old(self).items().update(i as int, value),
            final(self).meta() == old(self).meta(),
            final(self).transformed() == old(self).transformed(),
    {
        self.data.set(i, value);
    }
}

} // verus!
