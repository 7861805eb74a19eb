//! A ring buffer databus: one producer, several consumers that each read the
//! whole stream at their own pace, and packet boundaries carried beside the
//! data.
use vstd::prelude::*;
use vstd::arithmetic::div_mod::{lemma_fundamental_div_mod, lemma_fundamental_div_mod_converse, lemma_mod_bound};
use crate::databus::{ConsumerHandle, Databus, ProducerHandle};
use crate::payload::{Metadata, Position, ReadPayload, WritePayload};
use crate::port::PayloadSize;
use crate::registry::{ParticipantRegistry, Registration, MAX_CONSUMERS};

verus! {

// ---------------------------------------------------------------------------
// Arithmetic on positions in the ring.

/// An offset that stays within the current lap keeps its remainder offset.
proof fn lemma_mod_shift(x: int, j: int, m: int)
    requires
        m > 0,
        x >= 0,
        j >= 0,
        x % m + j < m,
    ensures
        (x + j) % m == x % m + j,
{
    lemma_fundamental_div_mod(x, m);
    lemma_mod_bound(x, m);
    assert(x + j == (x / m) * m + (x % m + j)) by (nonlinear_arith)
        requires
            x == m * (x / m) + (x % m),
    ;
    lemma_fundamental_div_mod_converse(x + j, m, x / m, x % m + j);
}

/// Positions less than one lap apart fall on different slots.
proof fn lemma_mod_distinct(x: int, y: int, m: int)
    requires
        m > 0,
        0 <= x < y < x + m,
    ensures
        x % m != y % m,
{
    lemma_fundamental_div_mod(x, m);
    lemma_fundamental_div_mod(y, m);
    if x % m == y % m {
        let q = y / m - x / m;
        assert(y - x == m * q) by (nonlinear_arith)
            requires
                x == m * (x / m) + (x % m),
                y == m * (y / m) + (y % m),
                x % m == y % m,
                q == y / m - x / m,
        ;
        assert(false) by (nonlinear_arith)
            requires
                m > 0,
                0 < m * q < m,
        ;
    }
}

// ---------------------------------------------------------------------------
// Packet boundaries.

/// Packet boundary markers: each holds an offset plus one, with 0 meaning unset.
pub struct PacketBoundary {
    start: u32,
    end: u32,
}

/// Where a read starting at `read_head` with `available` items falls in the
/// packet marked by `start` and `end`, and how many items it may take
/// without crossing the end marker.
pub open spec fn boundary_position(start: u32, end: u32, read_head: int, available: int) -> (Position, int) {
    let is_start = start > 0 && start - 1 == read_head;
    let is_end = end > 0 && end - 1 > read_head && end - 1 <= read_head + available;
    let len = if is_end { end - 1 - read_head } else { available };
    let pos = if is_start && is_end {
        Position::Single
    } else if is_start {
        Position::First
    } else if is_end {
        Position::Last
    } else {
        Position::Middle
    };
    (pos, len)
}

/// Whether the markers a payload of `len` items at `offset` sets fit their encoding.
pub open spec fn markers_fit(position: Position, offset: usize, len: usize) -> bool {
    &&& offset + len <= usize::MAX
    &&& (position == Position::Single || position == Position::First) ==> (offset as u32) < u32::MAX
    &&& (position == Position::Single || position == Position::Last) ==> (((offset + len) as usize) as u32) < u32::MAX
}

/// The marker value of an offset.
pub open spec fn marker(offset: usize) -> int {
    (offset as u32) + 1
}

impl PacketBoundary {
    pub closed spec fn start_marker(&self) -> u32 {
        self.start
    }

    pub closed spec fn end_marker(&self) -> u32 {
        self.end
    }

    pub fn new() -> (r: Self)
        ensures
            r.start_marker() == 0,
            r.end_marker() == 0,
    {
        PacketBoundary { start: 0, end: 0 }
    }

    /// Records the boundaries of a payload of `len` items written at `offset`.
    pub fn update(&mut self, position: Position, offset: usize, len: usize)
        requires
            markers_fit(position, offset, len),
        ensures
            final(self).start_marker() == match position {
                Position::Single | Position::First => marker(offset),
                _ => old(self).start_marker() as int,
            },
            final(self).end_marker() == match position {
                Position::Single | Position::Last => marker((offset + len) as usize),
                Position::First => 0,
                Position::Middle => old(self).end_marker() as int,
            },
    {
        match position {
            Position::Single => {
                self.start = (offset as u32) + 1;
                self.end = ((offset + len) as u32) + 1;
            },
            Position::First => {
                self.start = (offset as u32) + 1;
                self.end = 0;
            },
            Position::Last => {
                self.end = ((offset + len) as u32) + 1;
            },
            Position::Middle => {},
        }
    }

    /// The position of a read of `available` items at `read_head`, and its
    /// length capped at the end marker.
    pub fn calculate_position(&self, read_head: usize, available: usize) -> (r: (Position, usize))
        requires
            read_head + available <= usize::MAX,
        ensures
            (r.0, r.1 as int) == boundary_position(self.start_marker(), self.end_marker(), read_head as int, available as int),
            r.1 <= available,
    {
        let s_raw = self.start;
        let e_raw = self.end;
        let start_off: Option<usize> = if s_raw > 0 { Some((s_raw - 1) as usize) } else { None };
        let end_off: Option<usize> = if e_raw > 0 { Some((e_raw - 1) as usize) } else { None };
        let is_start = match start_off {
            Some(s) => s == read_head,
            None => false,
        };
        let (is_end, actual_len) = match end_off {
            Some(e) => {
                if e > read_head && e <= read_head + available {
                    (true, e - read_head)
                } else {
                    (false, available)
                }
            },
            None => (false, available),
        };
        let pos = if is_start && is_end {
            Position::Single
        } else if is_start {
            Position::First
        } else if is_end {
            Position::Last
        } else {
            Position::Middle
        };
        (pos, actual_len)
    }
}

impl Default for PacketBoundary {
    fn default() -> (r: Self)
        ensures
            r.start_marker() == 0,
            r.end_marker() == 0,
    {
        PacketBoundary::new()
    }
}

} // verus!

verus! {

// ---------------------------------------------------------------------------
// Participant states.

/// How the producer asked for its buffers.
#[derive(Clone, Copy)]
pub struct ProducerConfig {
    pub strict_alloc: bool,
    pub chunk_size: usize,
}

/// The producer's position in the stream and its configuration.
#[derive(Clone, Copy)]
pub struct ProducerState {
    pub write_head: usize,
    pub config: ProducerConfig,
}

impl Default for ProducerState {
    fn default() -> (r: Self)
        ensures
            r.write_head == 0,
            !r.config.strict_alloc,
            r.config.chunk_size == 0,
    {
        ProducerState { write_head: 0, config: ProducerConfig { strict_alloc: false, chunk_size: 0 } }
    }
}

/// A consumer's position in the stream.
#[derive(Clone, Copy)]
pub struct ConsumerState {
    pub read_head: usize,
}

impl Default for ConsumerState {
    fn default() -> (r: Self)
        ensures
            r.read_head == 0,
    {
        ConsumerState { read_head: 0 }
    }
}

/// The smallest of the first `n` read heads, starting from `usize::MAX`.
pub open spec fn min_of_heads(heads: Seq<usize>, n: int) -> int
    decreases n,
{
    if n <= 0 {
        usize::MAX as int
    } else {
        let m = min_of_heads(heads, n - 1);
        if heads[n - 1] < m { heads[n - 1] as int } else { m }
    }
}

proof fn lemma_min_of_heads(heads: Seq<usize>, n: int)
    requires
        0 <= n <= heads.len(),
    ensures
        forall|i: int| 0 <= i < n ==> min_of_heads(heads, n) <= heads[i],
        n > 0 ==> exists|i: int| 0 <= i < n && min_of_heads(heads, n) == heads[i],
        min_of_heads(heads, n) <= usize::MAX,
    decreases n,
{
    if n > 0 {
        lemma_min_of_heads(heads, n - 1);
        if n - 1 > 0 {
            let i = choose|i: int| 0 <= i < n - 1 && min_of_heads(heads, n - 1) == heads[i];
            assert(0 <= i < n && min_of_heads(heads, n) == heads[i] || min_of_heads(heads, n) == heads[n - 1]);
        }
    }
}

// ---------------------------------------------------------------------------
// The ring buffer.

/// A ring buffer databus with side-channel packet boundaries, for one producer
/// and several consumers.
///
/// Items are addressed by their position in the stream; position `p` lives in
/// slot `p % capacity`. The producer may only write where every consumer has
/// already read, so a consumer reads each item exactly as it was written.
///
/// With `strict_alloc` the producer always receives whole chunks of its
/// preferred size, and the capacity must be a multiple of that size.
pub struct RingBuffer<T> {
    storage: Vec<T>,
    boundary: PacketBoundary,
    registry: ParticipantRegistry<ProducerState, ConsumerState, ()>,
}

impl<T> RingBuffer<T> {
    /// How many items the ring holds.
    pub open spec fn capacity(&self) -> nat {
        self.contents().len()
    }

    /// The ring's slots.
    pub closed spec fn contents(&self) -> Seq<T> {
        self.storage@
    }

    pub closed spec fn reg(&self) -> Registration {
        self.registry.reg()
    }

    /// How many consumers are registered.
    pub open spec fn consumers(&self) -> nat {
        self.reg().count() as nat
    }

    /// The stream position of the next item the producer writes.
    pub closed spec fn write_head(&self) -> usize {
        self.registry.producer_view().write_head
    }

    /// The read heads of the registered consumers, by id.
    pub closed spec fn read_heads(&self) -> Seq<usize> {
        self.registry.consumers_view().map_values(|c: ConsumerState| c.read_head)
    }

    /// The stream position of the next item consumer `c` reads.
    pub open spec fn read_head(&self, c: int) -> usize {
        self.read_heads()[c]
    }

    pub closed spec fn strict(&self) -> bool {
        self.registry.producer_view().config.strict_alloc
    }

    /// The producer's preferred chunk size.
    pub closed spec fn chunk(&self) -> usize {
        self.registry.producer_view().config.chunk_size
    }

    pub closed spec fn start_marker(&self) -> u32 {
        self.boundary.start_marker()
    }

    pub closed spec fn end_marker(&self) -> u32 {
        self.boundary.end_marker()
    }

    pub closed spec fn wf(&self) -> bool {
        &&& self.registry.wf()
        &&& self.read_heads().len() == self.consumers()
        &&& forall|c: int| 0 <= c < self.consumers() ==> #[trigger] self.read_head(c) <= self.write_head()
        &&& self.capacity() == 0 ==> self.write_head() == 0
        &&& !self.reg().has_producer() ==> self.write_head() == 0
        &&& self.reg().has_producer() ==> self.chunk() > 0
        &&& (self.reg().has_producer() && self.strict()) ==> self.capacity() % (self.chunk() as nat) == 0
        &&& !self.reg().has_transformer()
    }

    /// The position below which every consumer has read: the smallest read
    /// head, or the write head when nobody reads.
    pub open spec fn min_read_head_spec(&self) -> int {
        if self.consumers() == 0 {
            self.write_head() as int
        } else {
            let m = min_of_heads(self.read_heads(), self.consumers() as int);
            if m == usize::MAX { self.write_head() as int } else { m }
        }
    }

    /// The producer is at most one ring's length ahead of the slowest
    /// consumer, so every consumer's unread items are still in the ring.
    pub open spec fn within_ring(&self) -> bool {
        self.write_head() - self.min_read_head_spec() <= self.capacity()
    }

    /// How many items the producer may write without overtaking a consumer.
    pub open spec fn free_space(&self) -> int {
        let used = self.write_head() - self.min_read_head_spec();
        if used >= self.capacity() { 0 } else { self.capacity() - used }
    }

    /// The slot of the write head.
    pub open spec fn write_slot(&self) -> int {
        if self.capacity() == 0 { 0 } else { (self.write_head() as int) % (self.capacity() as int) }
    }

    /// The longest write that neither overtakes a consumer nor wraps around.
    pub open spec fn writable(&self) -> int {
        let contiguous = self.capacity() - self.write_slot();
        if self.free_space() < contiguous { self.free_space() } else { contiguous }
    }

    /// Whether the producer may be handed a window now.
    pub open spec fn can_write(&self) -> bool {
        if self.strict() { self.free_space() >= self.chunk() } else { self.free_space() > 0 }
    }

    /// A strict producer's chunk never runs past the end of the ring.
    pub open spec fn strict_chunk_fits(&self) -> bool {
        (self.strict() && self.can_write()) ==> self.write_slot() + self.chunk() <= self.capacity()
    }

    /// The items consumer `c` has still to read, oldest first.
    pub open spec fn unread(&self, c: int) -> Seq<T> {
        let rh = self.read_head(c) as int;
        let cap = self.capacity() as int;
        Seq::new((self.write_head() - rh) as nat, |k: int| self.contents()[(rh + k) % cap])
    }

    /// What the bus's invariant gives callers: no consumer reads past the
    /// producer, and the oldest unread position bounds the free space.
    pub proof fn lemma_min_read_head(&self)
        requires
            self.wf(),
        ensures
            self.read_heads().len() == self.consumers(),
            forall|c: int| 0 <= c < self.consumers() ==> #[trigger] self.read_head(c) <= self.write_head(),
            self.capacity() == 0 ==> self.write_head() == 0,
            self.reg().has_producer() ==> self.chunk() > 0,
            (self.reg().has_producer() && self.strict()) ==> self.capacity() % (self.chunk() as nat) == 0,
            self.min_read_head_spec() <= self.write_head(),
            forall|c: int| 0 <= c < self.consumers() ==> self.min_read_head_spec() <= #[trigger] self.read_head(c),
            self.consumers() > 0 ==> exists|c: int| 0 <= c < self.consumers() && self.min_read_head_spec() == #[trigger] self.read_head(c),
            0 <= self.free_space() <= self.capacity(),
    {
        if self.consumers() > 0 {
            lemma_min_of_heads(self.read_heads(), self.consumers() as int);
            let i = choose|i: int| 0 <= i < self.consumers() && min_of_heads(self.read_heads(), self.consumers() as int) == self.read_heads()[i];
            assert(self.read_head(i) <= self.write_head());
            assert(self.min_read_head_spec() == self.read_head(i));
        }
    }

    /// A ring over `storage`, with nobody registered.
    pub fn new(storage: Vec<T>) -> (r: Self)
        ensures
            r.wf(),
            r.contents() == storage@,
            !r.reg().has_producer(),
            !r.reg().has_transformer(),
            r.consumers() == 0,
            r.read_heads() == Seq::<usize>::empty(),
            r.write_head() == 0,
            r.within_ring(),
            r.start_marker() == 0,
            r.end_marker() == 0,
    {
        let registry = ParticipantRegistry::new();
        let r = RingBuffer { storage, boundary: PacketBoundary::new(), registry };
        assert(r.read_heads().len() == 0);
        r
    }

    /// The smallest read head, or the write head when nobody reads.
    fn min_read_head(&self) -> (m: usize)
        requires
            self.wf(),
        ensures
            m == self.min_read_head_spec(),
    {
        let registration = self.registry.registration();
        let count = registration.consumer_count();
        let write_head = self.registry.producer_state().write_head;
        if count == 0 {
            return write_head;
        }
        let mut min: usize = usize::MAX;
        let mut i: u8 = 0;
        while i < count
            invariant
                self.wf(),
                count == self.consumers(),
                0 <= i <= count,
                min == min_of_heads(self.read_heads(), i as int),
            decreases count - i,
        {
            let cs = self.registry.consumer_state(i);
            let rh = cs.read_head;
            assert(rh == self.read_heads()[i as int]);
            if rh < min {
                min = rh;
            }
            i = i + 1;
        }
        if min == usize::MAX { write_head } else { min }
    }
}

impl<T> RingBuffer<T> {
    /// Whether a strict producer's next chunk would stay within the ring.
    pub fn strict_chunk_fits_now(&self) -> (b: bool)
        requires
            self.wf(),
        ensures
            b == self.strict_chunk_fits(),
    {
        proof {
            self.lemma_min_read_head();
        }
        let producer_state = *self.registry.producer_state();
        let config = producer_state.config;
        let write_head = producer_state.write_head;
        let min_read_head = self.min_read_head();
        let capacity = self.storage.len();
        let free_space = capacity.saturating_sub(write_head.wrapping_sub(min_read_head));
        if !config.strict_alloc || free_space < config.chunk_size {
            true
        } else {
            let slot = if capacity == 0 { 0 } else { write_head % capacity };
            slot <= capacity && config.chunk_size <= capacity - slot
        }
    }

    /// Whether the packet markers that a release of `written_len` items at the
    /// write head with `position` would set fit their encoding.
    pub fn markers_fit_now(&self, position: Position, written_len: usize) -> (b: bool)
        ensures
            b == markers_fit(position, self.write_head(), written_len),
    {
        let offset = self.registry.producer_state().write_head;
        if written_len > usize::MAX - offset {
            return false;
        }
        let start_fits = (offset as u32) < u32::MAX;
        let end_fits = ((offset + written_len) as u32) < u32::MAX;
        match position {
            Position::Single => start_fits && end_fits,
            Position::First => start_fits,
            Position::Last => end_fits,
            Position::Middle => true,
        }
    }

    /// How many items the ring holds.
    pub fn capacity_len(&self) -> (n: usize)
        ensures
            n == self.capacity(),
    {
        self.storage.len()
    }
}

impl<T: Copy + Default> RingBuffer<T> {
    /// A ring of `capacity` items.
    pub fn new_heap(capacity: usize) -> (r: Self)
        ensures
            r.wf(),
            r.capacity() == capacity,
            !r.reg().has_producer(),
            !r.reg().has_transformer(),
            r.consumers() == 0,
            r.read_heads() == Seq::<usize>::empty(),
            r.write_head() == 0,
            r.within_ring(),
            r.start_marker() == 0,
            r.end_marker() == 0,
    {
        let mut storage: Vec<T> = Vec::new();
        let mut i: usize = 0;
        while i < capacity
            invariant
                storage@.len() == i,
                i <= capacity,
            decreases capacity - i,
        {
            storage.push(T::default());
            i = i + 1;
        }
        Self::new(storage)
    }

    /// A ring of `N` items.
    pub fn new_static<const N: usize>() -> (r: Self)
        ensures
            r.wf(),
            r.capacity() == N,
            !r.reg().has_producer(),
            !r.reg().has_transformer(),
            r.consumers() == 0,
            r.read_heads() == Seq::<usize>::empty(),
            r.write_head() == 0,
            r.within_ring(),
            r.start_marker() == 0,
            r.end_marker() == 0,
    {
        Self::new_heap(N)
    }
}

} // verus!

verus! {

/// The smaller of two integers.
pub open spec fn min2(a: int, b: int) -> int {
    if a < b { a } else { b }
}

/// A copy of `len` items of `v` from index `start`.
fn copy_window<T: Copy>(v: &Vec<T>, start: usize, len: usize) -> (r: Vec<T>)
    requires
        start + len <= v@.len(),
    ensures
        r@ == v@.subrange(start as int, start + len),
{
    let mut out: Vec<T> = Vec::new();
    let mut i: usize = 0;
    while i < len
        invariant
            start + len <= v@.len(),
            v@.len() == v.len(),
            i <= len,
            out@ == v@.subrange(start as int, start + i),
        decreases len - i,
    {
        let x = v[start + i];
        out.push(x);
        i = i + 1;
        assert(out@ =~= v@.subrange(start as int, start + i));
    }
    out
}

impl<T> RingBuffer<T> {
    /// How long a read of `len` items by consumer `c` is: capped by what is
    /// available, by the packet end marker and by the end of the ring.
    pub open spec fn read_len(&self, c: int, len: int) -> int {
        let rh = self.read_head(c) as int;
        let available = self.write_head() - rh;
        let blen = boundary_position(self.start_marker(), self.end_marker(), rh, available).1;
        let contiguous = self.capacity() - rh % (self.capacity() as int);
        min2(min2(len, blen), contiguous)
    }

    /// The position a read by consumer `c` reports.
    pub open spec fn read_position(&self, c: int) -> Position {
        let rh = self.read_head(c) as int;
        boundary_position(self.start_marker(), self.end_marker(), rh, self.write_head() - rh).0
    }

    /// How long the window handed to the producer for a request of `len` items is.
    pub open spec fn write_len(&self, len: int) -> int {
        if self.strict() { self.chunk() as int } else { min2(len, self.writable()) }
    }
}

impl<T> Databus for RingBuffer<T> {
    type Item = T;

    open spec fn wf(&self) -> bool {
        RingBuffer::wf(self)
    }

    open spec fn registration_of(&self) -> Registration {
        self.reg()
    }

    /// The producer's preferred size is its chunk size; a strict producer's
    /// chunks must tile the ring.
    open spec fn accepts_producer(&self, payload_size: PayloadSize, strict_alloc: bool) -> bool {
        &&& !self.reg().has_producer()
        &&& payload_size.preferred > 0
        &&& strict_alloc ==> self.capacity() % (payload_size.preferred as nat) == 0
    }

    open spec fn accepts_consumer(&self, payload_size: PayloadSize, consume_all: bool) -> bool {
        self.consumers() < MAX_CONSUMERS
    }

    /// A ring buffer has no transformer support.
    open spec fn accepts_transformer(&self, payload_size: PayloadSize, strict_alloc: bool, consume_all: bool) -> bool {
        false
    }

    /// The producer starts at stream position 0 with its chunk size and
    /// strictness; nothing else changes.
    open spec fn producer_registered(&self, after: &Self, payload_size: PayloadSize, strict_alloc: bool) -> bool {
        &&& after.write_head() == 0
        &&& after.within_ring()
        &&& after.strict() == strict_alloc
        &&& after.chunk() == payload_size.preferred as usize
        &&& after.read_heads() == self.read_heads()
        &&& after.contents() == self.contents()
        &&& after.start_marker() == self.start_marker()
        &&& after.end_marker() == self.end_marker()
    }

    /// The new consumer starts reading at stream position 0; nothing else
    /// changes. Its unread items are still in the ring only while the producer
    /// has written no more than one ring's length.
    open spec fn consumer_registered(&self, after: &Self, payload_size: PayloadSize, consume_all: bool) -> bool {
        &&& after.read_heads() == self.read_heads().push(0)
        &&& after.within_ring() == (self.write_head() <= self.capacity())
        &&& after.write_head() == self.write_head()
        &&& after.strict() == self.strict()
        &&& after.chunk() == self.chunk()
        &&& after.contents() == self.contents()
        &&& after.start_marker() == self.start_marker()
        &&& after.end_marker() == self.end_marker()
    }

    /// A ring buffer never registers a transformer.
    open spec fn transformer_registered(&self, after: &Self, payload_size: PayloadSize, strict_alloc: bool, consume_all: bool) -> bool {
        false
    }

    fn can_register_producer(&self, payload_size: PayloadSize, strict_alloc: bool) -> (b: bool) {
        let registration = self.registry.registration();
        if registration.producer() || payload_size.preferred == 0 {
            false
        } else {
            !strict_alloc || self.storage.len() % (payload_size.preferred as usize) == 0
        }
    }

    fn can_register_consumer(&self, payload_size: PayloadSize, consume_all: bool) -> (b: bool) {
        let registration = self.registry.registration();
        (registration.consumer_count() as usize) < MAX_CONSUMERS
    }

    fn can_register_transformer(&self, payload_size: PayloadSize, strict_alloc: bool, consume_all: bool) -> (b: bool) {
        false
    }

    fn do_register_producer(&mut self, payload_size: PayloadSize, strict_alloc: bool) {
        let capacity = self.storage.len();
        let chunk_size = payload_size.preferred as usize;
        let remainder = capacity % chunk_size;
        assert(strict_alloc ==> remainder == 0);
        let config = ProducerConfig { strict_alloc, chunk_size };
        let state = ProducerState { write_head: 0, config };
        self.registry.register_producer(state);
        assert(self.read_heads() =~= old(self).read_heads());
        assert forall|c: int| 0 <= c < self.consumers() implies #[trigger] self.read_head(c) <= self.write_head() by {
            assert(old(self).read_head(c) <= old(self).write_head());
        }
        proof {
            self.lemma_min_read_head();
        }
    }

    fn do_register_consumer(&mut self, payload_size: PayloadSize, consume_all: bool) -> (id: u8) {
        let id = self.registry.register_consumer(ConsumerState { read_head: 0 });
        assert(self.read_heads() =~= old(self).read_heads().push(0));
        assert forall|c: int| 0 <= c < self.consumers() implies #[trigger] self.read_head(c) <= self.write_head() by {
            if c < old(self).consumers() {
                assert(old(self).read_head(c) <= old(self).write_head());
            }
        }
        proof {
            self.lemma_min_read_head();
            assert(self.read_head(id as int) == 0);
            assert(self.min_read_head_spec() == 0);
        }
        id
    }

    fn do_register_transformer(&mut self, payload_size: PayloadSize, strict_alloc: bool, consume_all: bool) {
        vstd::pervasive::unreached()
    }
}

impl<T: Copy> ProducerHandle<RingBuffer<T>> {
    /// Hands the producer a window to fill, or `None` while the ring lacks room
    /// (the caller waits for a consumer to release).
    ///
    /// A strict producer gets exactly one chunk once a chunk is free; any
    /// other producer gets up to `len` items, no more than is free and no
    /// further than the end of the ring.
    pub fn acquire_write(&self, bus: &RingBuffer<T>, len: usize) -> (r: Option<WritePayload<T>>)
        requires
            bus.wf(),
            bus.reg().has_producer(),
            bus.strict_chunk_fits(),
        ensures
            r is Some <==> bus.can_write(),
            r matches Some(p) ==> {
                &&& p.items() == bus.contents().subrange(bus.write_slot(), bus.write_slot() + bus.write_len(len as int))
                &&& p.meta().position == Position::Middle
                &&& p.written() == 0
            },
    {
        bus.registry.acquire_write_check();
        let producer_state = *bus.registry.producer_state();
        let config = producer_state.config;
        let write_head = producer_state.write_head;
        let min_read_head = bus.min_read_head();
        proof {
            bus.lemma_min_read_head();
        }
        let capacity = bus.storage.len();
        let free_space = capacity.saturating_sub(write_head.wrapping_sub(min_read_head));
        assert(free_space == bus.free_space());
        let can_write = if config.strict_alloc { free_space >= config.chunk_size } else { free_space > 0 };
        if can_write {
            let physical_write_idx = write_head % capacity;
            let actual_len = if config.strict_alloc {
                config.chunk_size
            } else {
                let contiguous = capacity - physical_write_idx;
                let l = if len < free_space { len } else { free_space };
                if l < contiguous { l } else { contiguous }
            };
            let data = copy_window(&bus.storage, physical_write_idx, actual_len);
            Some(WritePayload::new(data))
        } else {
            None
        }
    }
}

} // verus!

verus! {

impl<T> RingBuffer<T> {
    /// The slots after writing `data` at slot `slot`.
    pub open spec fn contents_after_write(contents: Seq<T>, slot: int, data: Seq<T>) -> Seq<T> {
        Seq::new(contents.len(), |p: int| if slot <= p < slot + data.len() { data[p - slot] } else { contents[p] })
    }

    /// Writing `n` items where the producer was allowed to extends what every
    /// consumer has still to read by exactly those items, in order: nothing a
    /// consumer has not read yet is overwritten.
    pub proof fn lemma_write_extends_unread(old_bus: &Self, new_bus: &Self, data: Seq<T>, n: int, c: int)
        requires
            old_bus.wf(),
            0 <= c < old_bus.consumers(),
            0 <= n <= data.len(),
            n <= old_bus.writable(),
            new_bus.contents() == Self::contents_after_write(old_bus.contents(), old_bus.write_slot(), data.take(n)),
            new_bus.write_head() == old_bus.write_head() + n,
            new_bus.read_heads() == old_bus.read_heads(),
        ensures
            new_bus.unread(c) == old_bus.unread(c) + data.take(n),
    {
        old_bus.lemma_min_read_head();
        let cap = old_bus.capacity() as int;
        let wh = old_bus.write_head() as int;
        let rh = old_bus.read_head(c) as int;
        let slot = old_bus.write_slot();
        let lag = wh - rh;
        if n == 0 {
            assert(new_bus.contents() =~= old_bus.contents());
            assert(new_bus.unread(c) =~= old_bus.unread(c) + data.take(n));
        } else {
            assert(cap > 0);
            assert(lag + n <= cap);
            assert(slot + n <= cap);
            assert(slot == wh % cap);
            assert forall|k: int| 0 <= k < lag + n implies #[trigger] new_bus.unread(c)[k] == (old_bus.unread(c) + data.take(n))[k] by {
                lemma_mod_bound(rh + k, cap);
                if k < lag {
                    assert(!(slot <= (rh + k) % cap < slot + n)) by {
                        if slot <= (rh + k) % cap < slot + n {
                            let j = (rh + k) % cap - slot;
                            lemma_mod_shift(wh, j, cap);
                            lemma_mod_distinct(rh + k, wh + j, cap);
                        }
                    }
                } else {
                    let j = k - lag;
                    lemma_mod_shift(wh, j, cap);
                    assert(rh + k == wh + j);
                }
            }
            assert(new_bus.unread(c) =~= old_bus.unread(c) + data.take(n));
        }
    }
}

impl<T: Copy> ProducerHandle<RingBuffer<T>> {
    /// Commits the first `written_len` items of `data` at the write head, records
    /// the packet markers that `metadata` calls for, and advances the write head.
    ///
    /// `written_len` is at most what the window handed out by `acquire_write`
    /// held.
    pub fn release_write(&self, bus: &mut RingBuffer<T>, metadata: Metadata, written_len: usize, data: &[T])
        requires
            old(bus).wf(),
            old(bus).reg().has_producer(),
            written_len <= data@.len(),
            written_len <= old(bus).writable(),
            markers_fit(metadata.position, old(bus).write_head(), written_len),
        ensures
            final(bus).wf(),
            final(bus).reg() == old(bus).reg(),
            final(bus).strict() == old(bus).strict(),
            final(bus).chunk() == old(bus).chunk(),
            final(bus).write_head() == old(bus).write_head() + written_len,
            final(bus).read_heads() == old(bus).read_heads(),
            final(bus).contents() == RingBuffer::<T>::contents_after_write(old(bus).contents(), old(bus).write_slot(), data@.take(written_len as int)),
            final(bus).start_marker() == match metadata.position {
                Position::Single | Position::First => marker(old(bus).write_head()),
                _ => old(bus).start_marker() as int,
            },
            final(bus).end_marker() == match metadata.position {
                Position::Single | Position::Last => marker((old(bus).write_head() + written_len) as usize),
                Position::First => 0,
                Position::Middle => old(bus).end_marker() as int,
            },
            forall|c: int| 0 <= c < old(bus).consumers() ==> #[trigger] final(bus).unread(c) == old(bus).unread(c) + data@.take(written_len as int),
            old(bus).within_ring() ==> final(bus).within_ring(),
    {
        let mut producer_state = *bus.registry.producer_state();
        let current_write_head = producer_state.write_head;
        bus.boundary.update(metadata.position, current_write_head, written_len);
        let ghost old_bus = *old(bus);
        let ghost marked_boundary = bus.boundary;
        let capacity = bus.storage.len();
        if written_len > 0 {
            let slot = current_write_head % capacity;
            let mut i: usize = 0;
            while i < written_len
                invariant
                    bus.storage@.len() == capacity,
                    bus.registry == old_bus.registry,
                    bus.boundary == marked_boundary,
                    capacity == old_bus.capacity(),
                    slot == old_bus.write_slot(),
                    written_len <= old_bus.writable(),
                    written_len <= data@.len(),
                    old_bus.wf(),
                    i <= written_len,
                    bus.storage@ == RingBuffer::<T>::contents_after_write(old_bus.contents(), slot as int, data@.take(i as int)),
                decreases written_len - i,
            {
                proof {
                    old_bus.lemma_min_read_head();
                }
                bus.storage.set(slot + i, data[i]);
                i = i + 1;
                assert(bus.storage@ =~= RingBuffer::<T>::contents_after_write(old_bus.contents(), slot as int, data@.take(i as int)));
            }
        } else {
            assert(bus.storage@ =~= RingBuffer::<T>::contents_after_write(old_bus.contents(), old_bus.write_slot(), data@.take(0)));
        }
        producer_state.write_head = current_write_head + written_len;
        bus.registry.set_producer_state(producer_state);
        assert(bus.read_heads() =~= old_bus.read_heads());
        proof {
            old_bus.lemma_min_read_head();
            let new_bus = *bus;
            assert forall|c: int| 0 <= c < new_bus.consumers() implies #[trigger] new_bus.read_head(c) <= new_bus.write_head() by {
                assert(old_bus.read_head(c) <= old_bus.write_head());
            }
            assert forall|c: int| 0 <= c < old_bus.consumers() implies #[trigger] new_bus.unread(c) == old_bus.unread(c) + data@.take(written_len as int) by {
                RingBuffer::<T>::lemma_write_extends_unread(&old_bus, &new_bus, data@, written_len as int, c);
            }
        }
    }
}

impl<T: Copy> ConsumerHandle<RingBuffer<T>> {
    /// Hands the consumer the next items of the stream, or `None` while it has
    /// read everything written (the caller waits for the producer).
    ///
    /// The read takes up to `len` items, stops at a packet's end marker and
    /// at the end of the ring, and reports where it lies in its packet.
    pub fn acquire_read(&self, bus: &RingBuffer<T>, len: usize) -> (r: Option<ReadPayload<T>>)
        requires
            bus.wf(),
            bus.consumers() > 0,
            self.id < bus.consumers(),
        ensures
            r is Some <==> bus.read_head(self.id as int) < bus.write_head(),
            r matches Some(p) ==> {
                &&& p.items() == bus.unread(self.id as int).take(bus.read_len(self.id as int, len as int))
                &&& p.meta().position == bus.read_position(self.id as int)
                &&& p.consumed() == 0
            },
    {
        bus.registry.acquire_read_check();
        let consumer_state = *bus.registry.consumer_state(self.id);
        let producer_state = *bus.registry.producer_state();
        let read_head = consumer_state.read_head;
        let write_head = producer_state.write_head;
        assert(read_head == bus.read_head(self.id as int));
        let available = write_head.wrapping_sub(read_head);
        if available > 0 {
            let (position, boundary_len) = bus.boundary.calculate_position(read_head, available);
            let capacity = bus.storage.len();
            let physical_read_idx = read_head % capacity;
            let contiguous = capacity - physical_read_idx;
            let l = if len < boundary_len { len } else { boundary_len };
            let actual_len = if l < contiguous { l } else { contiguous };
            let metadata = Metadata::new(position);
            let data = copy_window(&bus.storage, physical_read_idx, actual_len);
            proof {
                let cap = capacity as int;
                assert forall|k: int| 0 <= k < actual_len implies #[trigger] data@[k] == bus.unread(self.id as int)[k] by {
                    lemma_mod_shift(read_head as int, k, cap);
                }
                assert(data@ =~= bus.unread(self.id as int).take(actual_len as int));
            }
            Some(ReadPayload::new(data, metadata))
        } else {
            None
        }
    }

    /// Marks the first `consumed_len` unread items as read, freeing their
    /// slots once every consumer has read them.
    pub fn release_read(&self, bus: &mut RingBuffer<T>, metadata: Metadata, consumed_len: usize)
        requires
            old(bus).wf(),
            self.id < old(bus).consumers(),
            consumed_len <= old(bus).write_head() - old(bus).read_head(self.id as int),
        ensures
            final(bus).wf(),
            final(bus).reg() == old(bus).reg(),
            final(bus).strict() == old(bus).strict(),
            final(bus).chunk() == old(bus).chunk(),
            final(bus).write_head() == old(bus).write_head(),
            final(bus).read_heads() == old(bus).read_heads().update(self.id as int, (old(bus).read_head(self.id as int) + consumed_len) as usize),
            final(bus).contents() == old(bus).contents(),
            final(bus).start_marker() == old(bus).start_marker(),
            final(bus).end_marker() == old(bus).end_marker(),
            final(bus).unread(self.id as int) == old(bus).unread(self.id as int).skip(consumed_len as int),
            forall|c: int| 0 <= c < old(bus).consumers() && c != self.id ==> #[trigger] final(bus).unread(c) == old(bus).unread(c),
            old(bus).within_ring() ==> final(bus).within_ring(),
    {
        let ghost old_bus = *old(bus);
        let mut consumer_state = *bus.registry.consumer_state(self.id);
        consumer_state.read_head = consumer_state.read_head + consumed_len;
        bus.registry.set_consumer_state(self.id, consumer_state);
        assert(bus.read_heads() =~= old_bus.read_heads().update(self.id as int, (old_bus.read_head(self.id as int) + consumed_len) as usize));
        proof {
            let new_bus = *bus;
            assert forall|c: int| 0 <= c < new_bus.consumers() implies #[trigger] new_bus.read_head(c) <= new_bus.write_head() by {
                assert(old_bus.read_head(c) <= old_bus.write_head());
            }
            assert(new_bus.unread(self.id as int) =~= old_bus.unread(self.id as int).skip(consumed_len as int));
            assert forall|c: int| 0 <= c < old_bus.consumers() && c != self.id implies #[trigger] new_bus.unread(c) == old_bus.unread(c) by {
                assert(new_bus.unread(c) =~= old_bus.unread(c));
            }
            old_bus.lemma_min_read_head();
            new_bus.lemma_min_read_head();
            let c = choose|c: int| 0 <= c < new_bus.consumers() && new_bus.min_read_head_spec() == #[trigger] new_bus.read_head(c);
            assert(old_bus.min_read_head_spec() <= old_bus.read_head(c));
            assert(old_bus.read_head(c) <= new_bus.read_head(c));
        }
    }
}

} // verus!

verus! {

impl<T> RingBuffer<T> {
    /// The window the producer may fill never reaches an item that some
    /// consumer has not read: every consumer's unread items and the window
    /// together fit in the ring.
    pub proof fn lemma_window_within_free(&self, c: int)
        requires
            self.wf(),
            0 <= c < self.consumers(),
            self.writable() > 0,
        ensures
            self.unread(c).len() + self.writable() <= self.capacity(),
    {
        self.lemma_min_read_head();
    }

    /// While the producer is within one ring's length of the slowest consumer,
    /// every consumer's unread items fit in the ring, so none has been
    /// overwritten.
    pub proof fn lemma_unread_within_ring(&self, c: int)
        requires
            self.wf(),
            self.within_ring(),
            0 <= c < self.consumers(),
        ensures
            self.unread(c).len() <= self.capacity(),
    {
        self.lemma_min_read_head();
    }

    /// A strict producer whose write head sits on a chunk boundary gets a chunk
    /// that does not run past the end of the ring.
    pub proof fn lemma_strict_chunk_fits(&self)
        requires
            self.wf(),
            self.reg().has_producer(),
            self.strict(),
            (self.write_head() as int) % (self.chunk() as int) == 0,
        ensures
            self.strict_chunk_fits(),
    {
        self.lemma_min_read_head();
        let cap = self.capacity() as int;
        let ch = self.chunk() as int;
        let wh = self.write_head() as int;
        assert(cap % ch == 0);
        if cap > 0 {
            lemma_fundamental_div_mod(wh, cap);
            lemma_fundamental_div_mod(wh, ch);
            lemma_fundamental_div_mod(cap, ch);
            lemma_mod_bound(wh, cap);
            let slot = wh % cap;
            assert(slot == ch * (wh / ch - (cap / ch) * (wh / cap))) by (nonlinear_arith)
                requires
                    wh == cap * (wh / cap) + slot,
                    wh == ch * (wh / ch) + 0,
                    cap == ch * (cap / ch) + 0,
            ;
            let q = wh / ch - (cap / ch) * (wh / cap);
            assert(slot + ch <= cap) by (nonlinear_arith)
                requires
                    ch > 0,
                    slot == ch * q,
                    cap == ch * (cap / ch),
                    0 <= slot < cap,
            ;
            assert(self.write_slot() == slot);
        }
    }
}

impl<T> RingBuffer<T> {
    /// A strict producer that commits whole chunks (or nothing) keeps its write
    /// head on a chunk boundary, so its chunks keep tiling the ring.
    pub proof fn lemma_whole_chunks_keep_alignment(&self, written_len: usize)
        requires
            self.wf(),
            self.reg().has_producer(),
            (self.write_head() as int) % (self.chunk() as int) == 0,
            written_len == 0 || written_len == self.chunk(),
        ensures
            ((self.write_head() + written_len) as int) % (self.chunk() as int) == 0,
    {
        let ch = self.chunk() as int;
        let wh = self.write_head() as int;
        if written_len == self.chunk() {
            vstd::arithmetic::div_mod::lemma_mod_add_multiples_vanish(wh, ch);
        }
    }
}

/// A packet written as a first part and a last part reads back as one single
/// packet spanning both parts.
pub proof fn lemma_first_last_read_as_single(offset: usize, first_len: usize, last_len: usize)
    requires
        first_len + last_len > 0,
        offset + first_len + last_len < u32::MAX,
    ensures
        boundary_position(
            marker(offset) as u32,
            marker((offset + first_len + last_len) as usize) as u32,
            offset as int,
            (first_len + last_len) as int,
        ) == (Position::Single, (first_len + last_len) as int),
{
    assert((offset as u32) as int == offset);
    assert((((offset + first_len + last_len) as usize) as u32) as int == offset + first_len + last_len);
}

/// A read at the start of a single packet of `len` items is cut at its end and
/// reported as the whole packet, however much more is available.
pub proof fn lemma_single_packet_read(offset: usize, len: usize, available: usize)
    requires
        len > 0,
        len <= available,
        offset + available <= usize::MAX,
        offset + len < u32::MAX,
    ensures
        boundary_position(marker(offset) as u32, marker((offset + len) as usize) as u32, offset as int, available as int)
            == (Position::Single, len as int),
{
    assert((offset as u32) as int == offset);
    assert((((offset + len) as usize) as u32) as int == offset + len);
}


/// A read of available data always hands out at least one item and never more
/// than is available. The end marker cuts a read only where it lies after the
/// read head: a marker at the read head itself (the end of a packet already
/// read) neither cuts the read nor makes it a packet's last part. A read that
/// is cut short is the last part of its packet, and a read is the first part
/// of a packet exactly when the start marker sits at the read head.
pub proof fn lemma_read_never_empty(start: u32, end: u32, read_head: int, available: int)
    requires
        read_head >= 0,
        available > 0,
    ensures
        ({
            let (pos, len) = boundary_position(start, end, read_head, available);
            &&& 0 < len <= available
            &&& (end > 0 && end - 1 <= read_head) ==> (pos == Position::Middle || pos == Position::First) && len == available
            &&& len < available ==> (pos == Position::Last || pos == Position::Single)
            &&& (pos == Position::First || pos == Position::Single) <==> (start > 0 && start - 1 == read_head)
        }),
{
}

impl<T> RingBuffer<T> {
    /// A producer gets a window exactly when it can write without overtaking
    /// the slowest consumer: a non-strict one as soon as one slot is free, a
    /// strict one once a whole chunk is free. A strict window is one chunk; a
    /// non-strict window is never empty when items are asked for, never longer
    /// than asked, and never runs past the end of the ring.
    pub proof fn lemma_write_availability(&self, len: int)
        requires
            self.wf(),
            self.reg().has_producer(),
        ensures
            !self.strict() ==> (self.can_write() <==> self.write_head() - self.min_read_head_spec() < self.capacity()),
            self.strict() ==> (self.can_write() <==> self.write_head() - self.min_read_head_spec() + self.chunk() <= self.capacity()),
            self.strict() ==> self.write_len(len) == self.chunk(),
            (!self.strict() && self.can_write() && len > 0) ==> {
                &&& 0 < self.write_len(len) <= len
                &&& self.write_slot() + self.write_len(len) <= self.capacity()
                &&& self.write_head() - self.min_read_head_spec() + self.write_len(len) <= self.capacity()
            },
    {
        self.lemma_min_read_head();
        if self.capacity() > 0 {
            lemma_mod_bound(self.write_head() as int, self.capacity() as int);
        }
    }

    /// A ring buffer takes any consumer, whether or not it consumes whole
    /// payloads, while fewer than the maximum are registered.
    pub proof fn lemma_accepts_any_consumer(&self, payload_size: PayloadSize)
        ensures
            self.accepts_consumer(payload_size, false) == (self.consumers() < MAX_CONSUMERS),
            self.accepts_consumer(payload_size, true) == (self.consumers() < MAX_CONSUMERS),
    {
    }
}

} // verus!
