//! A single-slot databus: the producer fills the slot, an optional transformer
//! rewrites it in place, then every consumer reads it once before the slot is
//! free again.
use vstd::prelude::*;
use crate::databus::{ConsumerHandle, Databus, ProducerHandle, TransformerHandle};
use crate::payload::{Metadata, Position, ReadPayload, TransformPayload, WritePayload};
use crate::port::PayloadSize;
use crate::registry::{ParticipantRegistry, Registration, MAX_CONSUMERS, marked,
    lemma_all_marked, lemma_mark_bit, lemma_zero_unmarked};

verus! {

/// The phase a slot is in.
#[derive(Debug, Clone, Copy, PartialEq, Eq, Structural)]
pub enum State {
    /// Free for the producer.
    Empty,
    /// The producer holds the slot.
    Writing,
    /// Written, waiting for the transformer.
    Full,
    /// The transformer holds the slot.
    Transforming,
    /// Published to the consumers.
    ReadyForRead,
}

/// The byte that stands for a state.
pub open spec fn state_code(state: State) -> u8 {
    match state {
        State::Empty => 0,
        State::Writing => 1,
        State::Full => 2,
        State::Transforming => 3,
        State::ReadyForRead => 4,
    }
}

/// The state a byte stands for, if any.
pub open spec fn state_of_code(value: u8) -> Result<State, ()> {
    if value == 0 {
        Ok(State::Empty)
    } else if value == 1 {
        Ok(State::Writing)
    } else if value == 2 {
        Ok(State::Full)
    } else if value == 3 {
        Ok(State::Transforming)
    } else if value == 4 {
        Ok(State::ReadyForRead)
    } else {
        Err(())
    }
}

impl State {
    /// The byte that stands for this state.
    pub fn to_u8(self) -> (b: u8)
        ensures
            b == state_code(self),
    {
        match self {
            State::Empty => 0,
            State::Writing => 1,
            State::Full => 2,
            State::Transforming => 3,
            State::ReadyForRead => 4,
        }
    }

    /// The state a byte stands for, if any.
    pub fn try_from_u8(value: u8) -> (r: Result<State, ()>)
        ensures
            r == state_of_code(value),
    {
        match value {
            0 => Ok(State::Empty),
            1 => Ok(State::Writing),
            2 => Ok(State::Full),
            3 => Ok(State::Transforming),
            4 => Ok(State::ReadyForRead),
            _ => Err(()),
        }
    }
}

impl From<State> for u8 {
    fn from(state: State) -> (b: u8)
        ensures
            b == state_code(state),
    {
        state.to_u8()
    }
}

impl vstd::std_specs::convert::FromSpecImpl<State> for u8 {
    open spec fn obeys_from_spec() -> bool {
        true
    }

    open spec fn from_spec(v: State) -> Self {
        state_code(v)
    }
}

impl TryFrom<u8> for State {
    type Error = ();

    fn try_from(value: u8) -> (r: Result<Self, Self::Error>)
        ensures
            r == state_of_code(value),
    {
        State::try_from_u8(value)
    }
}

impl vstd::std_specs::convert::TryFromSpecImpl<u8> for State {
    open spec fn obeys_try_from_spec() -> bool {
        true
    }

    open spec fn try_from_spec(v: u8) -> Result<Self, Self::Error> {
        state_of_code(v)
    }
}

/// Decoding a state's byte gives the state back, and only the bytes of
/// states decode.
pub proof fn lemma_state_code_roundtrip(s: State, value: u8)
    ensures
        state_of_code(state_code(s)) == Ok::<State, ()>(s),
        state_of_code(value) matches Ok(t) ==> state_code(t) == value,
        state_of_code(value) is Err <==> value > 4,
{
}

/// A databus of a single slot shared by a producer, an optional transformer and
/// its consumers.
pub struct Slot<T> {
    storage: Vec<T>,
    payload_info: Option<(Metadata, usize)>,
    state: State,
    registry: ParticipantRegistry<bool, (), ()>,
}

impl<T> Slot<T> {
    /// How many items the slot holds.
    pub open spec fn capacity(&self) -> nat {
        self.contents().len()
    }

    pub closed spec fn contents(&self) -> Seq<T> {
        self.storage@
    }

    /// The metadata and valid length of the payload last written.
    pub closed spec fn info(&self) -> Option<(Metadata, usize)> {
        self.payload_info
    }

    pub closed spec fn phase(&self) -> State {
        self.state
    }

    pub closed spec fn reg(&self) -> Registration {
        self.registry.reg()
    }

    /// Whether the producer registered with `strict_alloc`.
    pub closed spec fn strict_producer(&self) -> bool {
        self.registry.producer_view()
    }

    /// The consumers that have read the current payload.
    pub closed spec fn finished_mask(&self) -> u8 {
        self.registry.finished_mask()
    }

    pub open spec fn consumers(&self) -> nat {
        self.reg().count() as nat
    }

    /// Whether consumer `id` has read the current payload.
    pub open spec fn has_finished(&self, id: u8) -> bool {
        marked(self.finished_mask(), id)
    }

    /// The valid length of the last payload.
    pub open spec fn valid_len(&self) -> nat {
        match self.info() {
            Some((_, n)) => n as nat,
            None => 0,
        }
    }

    /// The items of the payload last published or written.
    pub open spec fn published(&self) -> Seq<T> {
        self.contents().take(self.valid_len() as int)
    }

    pub closed spec fn wf(&self) -> bool {
        &&& self.registry.wf()
        &&& (self.state == State::Full || self.state == State::Transforming || self.state == State::ReadyForRead)
            ==> (self.payload_info is Some && self.valid_len() <= self.capacity())
        &&& (self.state == State::Full || self.state == State::Transforming) ==> self.reg().has_transformer()
        &&& forall|i: u8| self.consumers() <= i < 8 ==> !#[trigger] marked(self.finished_mask(), i)
    }

    /// What the slot's invariant gives callers: at most eight consumers, and a
    /// published payload fits the slot.
    pub proof fn lemma_wf(&self)
        requires
            self.wf(),
        ensures
            self.consumers() <= MAX_CONSUMERS,
            self.phase() == State::ReadyForRead ==> self.info() is Some && self.valid_len() <= self.capacity(),
    {
        self.registry.lemma_wf();
    }

    /// An empty slot over `storage`, with nobody registered.
    pub fn new(storage: Vec<T>) -> (r: Self)
        ensures
            r.wf(),
            r.contents() == storage@,
            r.phase() == State::Empty,
            r.info() is None,
            !r.reg().has_producer(),
            !r.reg().has_transformer(),
            r.consumers() == 0,
            r.finished_mask() == 0,
    {
        let r = Slot { storage, payload_info: None, state: State::Empty, registry: ParticipantRegistry::new() };
        assert forall|i: u8| r.consumers() <= i < 8 implies !#[trigger] marked(r.finished_mask(), i) by {
            lemma_zero_unmarked(i);
        }
        r
    }

    /// The metadata of the payload last written, if any.
    pub fn get_current_metadata(&self) -> (m: Option<Metadata>)
        ensures
            m == match self.info() {
                Some((meta, _)) => Some(meta),
                None => None,
            },
    {
        match self.payload_info {
            Some((m, _)) => Some(m),
            None => None,
        }
    }

    /// The phase the slot is in.
    pub fn current_state(&self) -> (s: State)
        ensures
            s == self.phase(),
    {
        self.state
    }

    /// Whether the producer registered with `strict_alloc`.
    pub fn is_strict_producer(&self) -> (b: bool)
        ensures
            b == self.strict_producer(),
    {
        *self.registry.producer_state()
    }

    /// The valid length of the payload last written, 0 before the first write.
    pub fn current_len(&self) -> (n: usize)
        ensures
            n == self.valid_len(),
    {
        match self.payload_info {
            Some((_, n)) => n,
            None => 0,
        }
    }

    /// Whether consumer `id` has read the current payload.
    pub fn is_finished(&self, id: u8) -> (b: bool)
        requires
            id < 8,
        ensures
            b == self.has_finished(id),
    {
        self.registry.is_consumer_finished(id)
    }

    /// How many items the slot holds.
    pub fn capacity_len(&self) -> (n: usize)
        ensures
            n == self.capacity(),
    {
        self.storage.len()
    }
}

impl<T: Copy + Default> Slot<T> {
    /// A slot of `capacity` items.
    pub fn new_heap(capacity: usize) -> (r: Self)
        ensures
            r.wf(),
            r.capacity() == capacity,
            r.phase() == State::Empty,
            r.info() is None,
            !r.reg().has_producer(),
            !r.reg().has_transformer(),
            r.consumers() == 0,
    {
        let mut storage: Vec<T> = Vec::new();
        let mut i: usize = 0;
        while i < capacity
            invariant
                storage@.len() == i,
                i <= capacity,
            decreases capacity - i,
        {
            storage.push(T::default());
            i = i + 1;
        }
        Self::new(storage)
    }

    /// A slot of `N` items.
    pub fn new_static<const N: usize>() -> (r: Self)
        ensures
            r.wf(),
            r.capacity() == N,
            r.phase() == State::Empty,
            r.info() is None,
            !r.reg().has_producer(),
            !r.reg().has_transformer(),
            r.consumers() == 0,
    {
        Self::new_heap(N)
    }
}

impl<T> Databus for Slot<T> {
    type Item = T;

    open spec fn wf(&self) -> bool {
        Slot::wf(self)
    }

    open spec fn registration_of(&self) -> Registration {
        self.reg()
    }

    open spec fn accepts_producer(&self, payload_size: PayloadSize, strict_alloc: bool) -> bool {
        !self.reg().has_producer()
    }

    /// Every consumer of a slot must consume whole payloads.
    open spec fn accepts_consumer(&self, payload_size: PayloadSize, consume_all: bool) -> bool {
        consume_all && self.consumers() < MAX_CONSUMERS
    }

    /// The transformer of a slot must consume whole payloads.
    open spec fn accepts_transformer(&self, payload_size: PayloadSize, strict_alloc: bool, consume_all: bool) -> bool {
        consume_all && !self.reg().has_transformer()
    }

    /// The slot records whether the producer is strict; its items, payload,
    /// phase and finished consumers stay as they were.
    open spec fn producer_registered(&self, after: &Self, payload_size: PayloadSize, strict_alloc: bool) -> bool {
        &&& after.strict_producer() == strict_alloc
        &&& after.contents() == self.contents()
        &&& after.info() == self.info()
        &&& after.phase() == self.phase()
        &&& after.finished_mask() == self.finished_mask()
    }

    /// The slot's items, payload, phase, finished consumers and producer
    /// strictness stay as they were.
    open spec fn consumer_registered(&self, after: &Self, payload_size: PayloadSize, consume_all: bool) -> bool {
        &&& after.contents() == self.contents()
        &&& after.info() == self.info()
        &&& after.phase() == self.phase()
        &&& after.finished_mask() == self.finished_mask()
        &&& after.strict_producer() == self.strict_producer()
    }

    /// The slot's items, payload, phase, finished consumers and producer
    /// strictness stay as they were.
    open spec fn transformer_registered(&self, after: &Self, payload_size: PayloadSize, strict_alloc: bool, consume_all: bool) -> bool {
        &&& after.contents() == self.contents()
        &&& after.info() == self.info()
        &&& after.phase() == self.phase()
        &&& after.finished_mask() == self.finished_mask()
        &&& after.strict_producer() == self.strict_producer()
    }

    fn can_register_producer(&self, payload_size: PayloadSize, strict_alloc: bool) -> (b: bool) {
        let registration = self.registry.registration();
        !registration.producer()
    }

    fn can_register_consumer(&self, payload_size: PayloadSize, consume_all: bool) -> (b: bool) {
        let registration = self.registry.registration();
        consume_all && (registration.consumer_count() as usize) < MAX_CONSUMERS
    }

    fn can_register_transformer(&self, payload_size: PayloadSize, strict_alloc: bool, consume_all: bool) -> (b: bool) {
        let registration = self.registry.registration();
        consume_all && !registration.transformer()
    }

    fn do_register_producer(&mut self, payload_size: PayloadSize, strict_alloc: bool) {
        self.registry.register_producer(strict_alloc);
        assert forall|i: u8| self.consumers() <= i < 8 implies !#[trigger] marked(self.finished_mask(), i) by {
            assert(old(self).consumers() <= i);
            assert(!marked(old(self).finished_mask(), i));
        }
    }

    fn do_register_consumer(&mut self, payload_size: PayloadSize, consume_all: bool) -> (id: u8) {
        let id = self.registry.register_consumer(());
        assert forall|i: u8| self.consumers() <= i < 8 implies !#[trigger] marked(self.finished_mask(), i) by {
            assert(old(self).consumers() <= i);
            assert(!marked(old(self).finished_mask(), i));
        }
        id
    }

    fn do_register_transformer(&mut self, payload_size: PayloadSize, strict_alloc: bool, consume_all: bool) {
        self.registry.register_transformer(());
        assert forall|i: u8| self.consumers() <= i < 8 implies !#[trigger] marked(self.finished_mask(), i) by {
            assert(old(self).consumers() <= i);
            assert(!marked(old(self).finished_mask(), i));
        }
    }
}

} // verus!

verus! {

/// A copy of the first `len` items of `v`.
fn copy_prefix<T: Copy>(v: &Vec<T>, len: usize) -> (r: Vec<T>)
    requires
        len <= v@.len(),
    ensures
        r@ == v@.take(len as int),
{
    let mut out: Vec<T> = Vec::new();
    let mut i: usize = 0;
    while i < len
        invariant
            len <= v@.len(),
            i <= len,
            out@ == v@.take(i as int),
        decreases len - i,
    {
        let x = v[i];
        out.push(x);
        i = i + 1;
        assert(out@ =~= v@.take(i as int));
    }
    out
}

impl<T> Slot<T> {
    /// The slot's items after the first `data.len()` are replaced by `data`.
    pub open spec fn contents_after_write(contents: Seq<T>, data: Seq<T>) -> Seq<T> {
        Seq::new(contents.len(), |p: int| if p < data.len() { data[p] } else { contents[p] })
    }
}

/// Overwrites the first `len` items of `storage` with those of `data`.
fn write_prefix<T: Copy>(storage: &mut Vec<T>, data: &[T], len: usize)
    requires
        len <= data@.len(),
        len <= old(storage)@.len(),
    ensures
        final(storage)@ == Slot::<T>::contents_after_write(old(storage)@, data@.take(len as int)),
{
    let mut i: usize = 0;
    while i < len
        invariant
            len <= data@.len(),
            len <= old(storage)@.len(),
            storage@.len() == old(storage)@.len(),
            i <= len,
            storage@ == Slot::<T>::contents_after_write(old(storage)@, data@.take(i as int)),
        decreases len - i,
    {
        storage.set(i, data[i]);
        i = i + 1;
        assert(storage@ =~= Slot::<T>::contents_after_write(old(storage)@, data@.take(i as int)));
    }
    assert(storage@ =~= Slot::<T>::contents_after_write(old(storage)@, data@.take(len as int)));
}

impl<T: Copy> ProducerHandle<Slot<T>> {
    /// Hands the producer the slot, cut to `len` items, once it is empty; `None`
    /// while it is in use (the caller waits).
    ///
    /// A strict producer must ask for less than the slot holds.
    pub fn acquire_write(&self, bus: &mut Slot<T>, len: usize) -> (r: Option<WritePayload<T>>)
        requires
            old(bus).wf(),
            old(bus).reg().has_producer(),
            old(bus).strict_producer() ==> len < old(bus).capacity(),
        ensures
            final(bus).wf(),
            r is Some <==> old(bus).phase() == State::Empty,
            r matches Some(p) ==> {
                &&& final(bus).phase() == State::Writing
                &&& p.items() == old(bus).contents().take(min_len(old(bus).capacity() as int, len as int))
                &&& p.items().len() <= len
                &&& p.items().len() <= old(bus).capacity()
                &&& len <= old(bus).capacity() ==> p.items().len() == len
                &&& p.meta().position == Position::Middle
                &&& p.written() == 0
            },
            r is None ==> final(bus).phase() == old(bus).phase(),
            final(bus).contents() == old(bus).contents(),
            final(bus).info() == old(bus).info(),
            final(bus).reg() == old(bus).reg(),
            final(bus).finished_mask() == old(bus).finished_mask(),
            final(bus).strict_producer() == old(bus).strict_producer(),
    {
        bus.registry.acquire_write_check();
        let capacity = bus.storage.len();
        let payload_len = if capacity < len { capacity } else { len };
        let r = if bus.state == State::Empty {
            bus.state = State::Writing;
            let data = copy_prefix(&bus.storage, payload_len);
            Some(WritePayload::new(data))
        } else {
            None
        };
        assert forall|i: u8| bus.consumers() <= i < 8 implies !#[trigger] marked(bus.finished_mask(), i) by {
            assert(!marked(old(bus).finished_mask(), i));
        }
        r
    }

    /// Publishes the first `written_len` items of `data`: to the transformer if
    /// one is registered, else to every consumer.
    pub fn release_write(&self, bus: &mut Slot<T>, metadata: Metadata, written_len: usize, data: &[T])
        requires
            old(bus).wf(),
            old(bus).phase() == State::Writing,
            written_len <= data@.len(),
            written_len <= old(bus).capacity(),
        ensures
            final(bus).wf(),
            final(bus).contents() == Slot::<T>::contents_after_write(old(bus).contents(), data@.take(written_len as int)),
            final(bus).info() == Some((metadata, written_len)),
            final(bus).published() == data@.take(written_len as int),
            final(bus).phase() == if old(bus).reg().has_transformer() { State::Full } else { State::ReadyForRead },
            !old(bus).reg().has_transformer() ==> final(bus).finished_mask() == 0,
            old(bus).reg().has_transformer() ==> final(bus).finished_mask() == old(bus).finished_mask(),
            final(bus).reg() == old(bus).reg(),
            final(bus).strict_producer() == old(bus).strict_producer(),
    {
        write_prefix(&mut bus.storage, data, written_len);
        bus.payload_info = Some((metadata, written_len));
        let registration = bus.registry.registration();
        let has_transformer = registration.transformer();
        if has_transformer {
            bus.state = State::Full;
        } else {
            bus.registry.reset_consumers_finished();
            bus.state = State::ReadyForRead;
            assert forall|i: u8| bus.consumers() <= i < 8 implies !#[trigger] marked(bus.finished_mask(), i) by {
                lemma_zero_unmarked(i);
            }
        }
        assert(bus.published() =~= data@.take(written_len as int));
        assert forall|i: u8| bus.consumers() <= i < 8 implies !#[trigger] marked(bus.finished_mask(), i) by {
            if has_transformer {
                assert(!marked(old(bus).finished_mask(), i));
            } else {
                lemma_zero_unmarked(i);
            }
        }
    }
}

/// The smaller of two lengths.
pub open spec fn min_len(a: int, b: int) -> int {
    if a < b { a } else { b }
}

/// The slot's write window holds what was asked for as far as the slot
/// reaches: never more than asked or than the slot holds, and all of it when
/// the slot holds that many.
pub proof fn lemma_min_len(capacity: int, len: int)
    ensures
        min_len(capacity, len) <= len,
        min_len(capacity, len) <= capacity,
        len <= capacity ==> min_len(capacity, len) == len,
        capacity <= len ==> min_len(capacity, len) == capacity,
{
}

impl<T: Copy> TransformerHandle<Slot<T>> {
    /// Hands the transformer the written payload once the producer has
    /// published it; `None` otherwise (the caller waits).
    pub fn acquire_transform(&self, bus: &mut Slot<T>, len: usize) -> (r: Option<TransformPayload<T>>)
        requires
            old(bus).wf(),
            old(bus).reg().has_transformer(),
            old(bus).phase() == State::Full ==> old(bus).valid_len() <= len,
        ensures
            final(bus).wf(),
            r is Some <==> old(bus).phase() == State::Full,
            r matches Some(p) ==> {
                &&& final(bus).phase() == State::Transforming
                &&& p.items() == old(bus).published()
                &&& Some((p.meta(), old(bus).valid_len() as usize)) == old(bus).info()
                &&& p.transformed() == 0
            },
            r is None ==> final(bus).phase() == old(bus).phase(),
            final(bus).contents() == old(bus).contents(),
            final(bus).info() == old(bus).info(),
            final(bus).reg() == old(bus).reg(),
            final(bus).finished_mask() == old(bus).finished_mask(),
            final(bus).strict_producer() == old(bus).strict_producer(),
    {
        bus.registry.acquire_transform_check();
        let r = if bus.state == State::Full {
            bus.state = State::Transforming;
            match bus.payload_info {
                Some((metadata, valid_len)) => {
                    let data = copy_prefix(&bus.storage, valid_len);
                    Some(TransformPayload::new(data, metadata))
                },
                None => vstd::pervasive::unreached(),
            }
        } else {
            None
        };
        assert forall|i: u8| bus.consumers() <= i < 8 implies !#[trigger] marked(bus.finished_mask(), i) by {
            assert(!marked(old(bus).finished_mask(), i));
        }
        r
    }

    /// Publishes the first `transformed_len` items of `data` to every consumer;
    /// the output may not be longer than the input.
    pub fn release_transform(&self, bus: &mut Slot<T>, metadata: Metadata, transformed_len: usize, data: &[T])
        requires
            old(bus).wf(),
            old(bus).phase() == State::Transforming,
            transformed_len <= old(bus).valid_len(),
            transformed_len <= data@.len(),
        ensures
            final(bus).wf(),
            final(bus).contents() == Slot::<T>::contents_after_write(old(bus).contents(), data@.take(transformed_len as int)),
            final(bus).info() == Some((metadata, transformed_len)),
            final(bus).published() == data@.take(transformed_len as int),
            final(bus).phase() == State::ReadyForRead,
            final(bus).finished_mask() == 0,
            final(bus).reg() == old(bus).reg(),
            final(bus).strict_producer() == old(bus).strict_producer(),
    {
        write_prefix(&mut bus.storage, data, transformed_len);
        bus.payload_info = Some((metadata, transformed_len));
        bus.registry.reset_consumers_finished();
        bus.state = State::ReadyForRead;
        assert(bus.published() =~= data@.take(transformed_len as int));
        assert forall|i: u8| bus.consumers() <= i < 8 implies !#[trigger] marked(bus.finished_mask(), i) by {
            lemma_zero_unmarked(i);
        }
    }
}

impl<T: Copy> ConsumerHandle<Slot<T>> {
    /// Hands the consumer the published payload if it has not read it yet;
    /// `None` otherwise (the caller waits).
    pub fn acquire_read(&self, bus: &Slot<T>, len: usize) -> (r: Option<ReadPayload<T>>)
        requires
            bus.wf(),
            bus.consumers() > 0,
            self.id < bus.consumers(),
            (bus.phase() == State::ReadyForRead && !bus.has_finished(self.id)) ==> bus.valid_len() <= len,
        ensures
            r is Some <==> (!bus.has_finished(self.id) && bus.phase() == State::ReadyForRead),
            r matches Some(p) ==> {
                &&& p.items() == bus.published()
                &&& Some((p.meta(), bus.valid_len() as usize)) == bus.info()
                &&& p.consumed() == 0
            },
    {
        bus.registry.acquire_read_check();
        proof {
            bus.lemma_wf();
        }
        if bus.registry.is_consumer_finished(self.id) {
            return None;
        }
        if bus.state == State::ReadyForRead {
            match bus.payload_info {
                Some((metadata, valid_len)) => {
                    let data = copy_prefix(&bus.storage, valid_len);
                    Some(ReadPayload::new(data, metadata))
                },
                None => vstd::pervasive::unreached(),
            }
        } else {
            None
        }
    }

    /// Marks this consumer as done with the published payload, which it must
    /// have consumed whole; the slot is free again once every consumer is done.
    pub fn release_read(&self, bus: &mut Slot<T>, metadata: Metadata, consumed_len: usize)
        requires
            old(bus).wf(),
            self.id < old(bus).consumers(),
            old(bus).phase() == State::ReadyForRead,
            consumed_len >= old(bus).valid_len(),
        ensures
            final(bus).wf(),
            final(bus).phase() == if forall|i: u8| i < final(bus).consumers() ==> #[trigger] final(bus).has_finished(i) {
                State::Empty
            } else {
                State::ReadyForRead
            },
            final(bus).has_finished(self.id),
            forall|i: u8| i < 8 && i != self.id ==> (#[trigger] final(bus).has_finished(i) == old(bus).has_finished(i)),
            final(bus).contents() == old(bus).contents(),
            final(bus).info() == old(bus).info(),
            final(bus).reg() == old(bus).reg(),
            final(bus).strict_producer() == old(bus).strict_producer(),
    {
        proof {
            old(bus).lemma_wf();
        }
        let all_done = bus.registry.mark_consumer_as_finished(self.id);
        proof {
            let mask = bus.finished_mask();
            assert forall|i: u8| i < 8 implies (#[trigger] marked(mask, i) <==> (i == self.id || marked(old(bus).finished_mask(), i))) by {
                lemma_mark_bit(old(bus).finished_mask(), self.id, i);
            }
            assert forall|i: u8| bus.consumers() <= i < 8 implies !#[trigger] marked(bus.finished_mask(), i) by {
                assert(!marked(old(bus).finished_mask(), i));
            }
            lemma_all_marked(mask, bus.reg().count());
            if forall|i: u8| i < bus.reg().count() ==> marked(mask, i) {
                assert forall|i: u8| i < bus.consumers() implies #[trigger] bus.has_finished(i) by {
                    assert(marked(mask, i));
                }
            }
            if forall|i: u8| i < bus.consumers() ==> #[trigger] bus.has_finished(i) {
                assert forall|i: u8| i < bus.reg().count() implies marked(mask, i) by {
                    assert(bus.has_finished(i));
                }
            }
        }
        if all_done {
            bus.state = State::Empty;
        }
    }
}

} // verus!
