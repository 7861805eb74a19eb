//! Participant registration for a databus: which roles are taken, the state
//! each participant carries, and which consumers have finished the current
//! payload.
use vstd::prelude::*;

verus! {

/// The most consumers a databus accepts.
pub const MAX_CONSUMERS: usize = 8;

/// Which participants are registered, packed into one byte:
/// bit 0 the producer, bit 1 the transformer, bits 2..8 the consumer count.
#[derive(Debug, Clone, Copy, PartialEq, Eq, Structural)]
pub struct Registration {
    bits: u8,
}

/// The byte that encodes the three fields of a registration.
pub open spec fn encode_registration(producer: bool, transformer: bool, consumer_count: int) -> int {
    (if producer { 1int } else { 0int }) + (if transformer { 2int } else { 0int }) + 4 * consumer_count
}

impl Registration {
    /// Whether a producer is registered.
    pub closed spec fn has_producer(self) -> bool {
        self.bits & 1 == 1
    }

    /// Whether a transformer is registered.
    pub closed spec fn has_transformer(self) -> bool {
        (self.bits >> 1u8) & 1 == 1
    }

    /// How many consumers are registered.
    pub closed spec fn count(self) -> u8 {
        self.bits >> 2u8
    }

    /// The raw byte.
    pub closed spec fn raw(self) -> u8 {
        self.bits
    }

    /// No participant registered.
    pub fn new() -> (r: Self)
        ensures
            !r.has_producer(),
            !r.has_transformer(),
            r.count() == 0,
            r.raw() == 0,
    {
        proof {
            assert((0u8 & 1) == 0u8 && ((0u8 >> 1u8) & 1) == 0u8 && (0u8 >> 2u8) == 0u8) by (bit_vector);
        }
        Registration { bits: 0 }
    }

    /// Reads a registration back from its byte.
    pub fn from_bits(bits: u8) -> (r: Self)
        ensures
            r.raw() == bits,
            r == Self::from_bits_spec(bits),
    {
        Registration { bits }
    }

    /// The byte of this registration.
    pub fn into_bits(self) -> (b: u8)
        ensures
            b == self.raw(),
    {
        self.bits
    }

    pub fn producer(&self) -> (b: bool)
        ensures
            b == self.has_producer(),
    {
        self.bits & 1 == 1
    }

    pub fn transformer(&self) -> (b: bool)
        ensures
            b == self.has_transformer(),
    {
        (self.bits >> 1u8) & 1 == 1
    }

    pub fn consumer_count(&self) -> (c: u8)
        ensures
            c == self.count(),
            c < 64,
    {
        let b = self.bits;
        proof {
            assert((b >> 2u8) < 64u8) by (bit_vector);
        }
        b >> 2u8
    }

    /// This registration with the producer flag set to `value`.
    pub fn with_producer(self, value: bool) -> (r: Self)
        ensures
            r.has_producer() == value,
            r.has_transformer() == self.has_transformer(),
            r.count() == self.count(),
    {
        let b = self.bits;
        let nb: u8 = if value { b | 1 } else { b & 0xfe };
        proof {
            assert(((b | 1) & 1) == 1u8 && (((b | 1) >> 1u8) & 1) == ((b >> 1u8) & 1) && ((b | 1) >> 2u8) == (b >> 2u8)) by (bit_vector);
            assert(((b & 0xfe) & 1) == 0u8 && (((b & 0xfe) >> 1u8) & 1) == ((b >> 1u8) & 1) && ((b & 0xfe) >> 2u8) == (b >> 2u8)) by (bit_vector);
        }
        Registration { bits: nb }
    }

    /// This registration with the transformer flag set to `value`.
    pub fn with_transformer(self, value: bool) -> (r: Self)
        ensures
            r.has_producer() == self.has_producer(),
            r.has_transformer() == value,
            r.count() == self.count(),
    {
        let b = self.bits;
        let nb: u8 = if value { b | 2 } else { b & 0xfd };
        proof {
            assert(((b | 2) & 1) == (b & 1) && (((b | 2) >> 1u8) & 1) == 1u8 && ((b | 2) >> 2u8) == (b >> 2u8)) by (bit_vector);
            assert(((b & 0xfd) & 1) == (b & 1) && (((b & 0xfd) >> 1u8) & 1) == 0u8 && ((b & 0xfd) >> 2u8) == (b >> 2u8)) by (bit_vector);
        }
        Registration { bits: nb }
    }

    /// This registration with the consumer count set to `value`, which must fit in six bits.
    pub fn with_consumer_count(self, value: u8) -> (r: Self)
        requires
            value < 64,
        ensures
            r.has_producer() == self.has_producer(),
            r.has_transformer() == self.has_transformer(),
            r.count() == value,
    {
        let b = self.bits;
        let nb: u8 = (b & 3) | (value << 2u8);
        proof {
            assert(value < 64u8 ==> ((((b & 3) | (value << 2u8)) & 1) == (b & 1)
                && ((((b & 3) | (value << 2u8)) >> 1u8) & 1) == ((b >> 1u8) & 1)
                && (((b & 3) | (value << 2u8)) >> 2u8) == value)) by (bit_vector);
        }
        Registration { bits: nb }
    }
}

/// The three fields of a registration determine it, and its byte is their encoding.
pub proof fn lemma_registration_encoding(r: Registration)
    ensures
        r.raw() as int == encode_registration(r.has_producer(), r.has_transformer(), r.count() as int),
{
    let b = r.raw();
    assert(b as int == (b & 1) as int + 2 * ((b >> 1u8) & 1) as int + 4 * (b >> 2u8) as int) by (bit_vector);
    assert((b & 1) == 1u8 || (b & 1) == 0u8) by (bit_vector);
    assert(((b >> 1u8) & 1) == 1u8 || ((b >> 1u8) & 1) == 0u8) by (bit_vector);
}

} // verus!

verus! {

/// The mask in which exactly the bits of consumers `0..count` are set.
pub open spec fn full_mask(count: u8) -> u8 {
    if count > 0 { (((1u16 << count) - 1) as u16) as u8 } else { 0 }
}

/// Whether consumer `id` is marked in `mask`.
pub open spec fn marked(mask: u8, id: u8) -> bool {
    mask & (1u8 << id) != 0
}

/// Registered participants and the state each of them carries.
///
/// `PS`, `CS` and `TS` are the databus-specific states of the producer, of
/// each consumer and of the transformer.
pub struct ParticipantRegistry<PS: Default, CS: Default, TS: Default> {
    producer: PS,
    transformer: TS,
    consumers: Vec<CS>,
    registered: Registration,
    consumers_finished: u8,
}

impl<PS: Default, CS: Default, TS: Default> ParticipantRegistry<PS, CS, TS> {
    /// The registration flags and count.
    pub closed spec fn reg(&self) -> Registration {
        self.registered
    }

    /// The producer's state.
    pub closed spec fn producer_view(&self) -> PS {
        self.producer
    }

    /// The transformer's state.
    pub closed spec fn transformer_view(&self) -> TS {
        self.transformer
    }

    /// The consumers' states, indexed by consumer id.
    pub closed spec fn consumers_view(&self) -> Seq<CS> {
        self.consumers@
    }

    /// The mask of consumers that finished the current payload.
    pub closed spec fn finished_mask(&self) -> u8 {
        self.consumers_finished
    }

    /// One state per registered consumer, and no more consumers than allowed.
    pub closed spec fn wf(&self) -> bool {
        &&& self.consumers@.len() == self.registered.count()
        &&& self.registered.count() <= MAX_CONSUMERS
    }

    pub proof fn lemma_wf(&self)
        requires
            self.wf(),
        ensures
            self.consumers_view().len() == self.reg().count(),
            self.reg().count() <= MAX_CONSUMERS,
    {
    }

    pub fn new() -> (r: Self)
        ensures
            r.wf(),
            !r.reg().has_producer(),
            !r.reg().has_transformer(),
            r.reg().count() == 0,
            r.consumers_view().len() == 0,
            r.finished_mask() == 0,
            call_ensures(PS::default, (), r.producer_view()),
            call_ensures(TS::default, (), r.transformer_view()),
    {
        ParticipantRegistry {
            producer: PS::default(),
            transformer: TS::default(),
            consumers: Vec::new(),
            registered: Registration::new(),
            consumers_finished: 0,
        }
    }

    pub fn registration(&self) -> (r: Registration)
        ensures
            r == self.reg(),
    {
        self.registered
    }

    /// Registers the producer with its initial state.
    pub fn register_producer(&mut self, initial_state: PS)
        requires
            old(self).wf(),
            !old(self).reg().has_producer(),
        ensures
            final(self).wf(),
            final(self).reg().has_producer(),
            final(self).reg().has_transformer() == old(self).reg().has_transformer(),
            final(self).reg().count() == old(self).reg().count(),
            final(self).producer_view() == initial_state,
            final(self).transformer_view() == old(self).transformer_view(),
            final(self).consumers_view() == old(self).consumers_view(),
            final(self).finished_mask() == old(self).finished_mask(),
    {
        self.registered = self.registered.with_producer(true);
        self.producer = initial_state;
    }

    /// Registers a consumer with its initial state and returns its id, which is
    /// the number of consumers registered before it.
    pub fn register_consumer(&mut self, initial_state: CS) -> (id: u8)
        requires
            old(self).wf(),
            old(self).reg().count() < MAX_CONSUMERS,
        ensures
            final(self).wf(),
            id == old(self).reg().count(),
            final(self).reg().count() == id + 1,
            final(self).reg().has_producer() == old(self).reg().has_producer(),
            final(self).reg().has_transformer() == old(self).reg().has_transformer(),
            final(self).consumers_view() == old(self).consumers_view().push(initial_state),
            final(self).producer_view() == old(self).producer_view(),
            final(self).transformer_view() == old(self).transformer_view(),
            final(self).finished_mask() == old(self).finished_mask(),
    {
        let id = self.registered.consumer_count();
        self.registered = self.registered.with_consumer_count(id + 1);
        self.consumers.push(initial_state);
        id
    }

    /// Registers the transformer with its initial state.
    pub fn register_transformer(&mut self, initial_state: TS)
        requires
            old(self).wf(),
            !old(self).reg().has_transformer(),
        ensures
            final(self).wf(),
            final(self).reg().has_transformer(),
            final(self).reg().has_producer() == old(self).reg().has_producer(),
            final(self).reg().count() == old(self).reg().count(),
            final(self).transformer_view() == initial_state,
            final(self).producer_view() == old(self).producer_view(),
            final(self).consumers_view() == old(self).consumers_view(),
            final(self).finished_mask() == old(self).finished_mask(),
    {
        self.registered = self.registered.with_transformer(true);
        self.transformer = initial_state;
    }

    /// Writing is only possible once a producer is registered.
    pub fn acquire_write_check(&self)
        requires
            self.reg().has_producer(),
    {
    }

    /// Reading is only possible once a consumer is registered.
    pub fn acquire_read_check(&self)
        requires
            self.reg().count() > 0,
    {
    }

    /// Transforming is only possible once a transformer is registered.
    pub fn acquire_transform_check(&self)
        requires
            self.reg().has_transformer(),
    {
    }

    /// Marks consumer `id` as finished with the current payload; returns whether
    /// every registered consumer has now finished.
    pub fn mark_consumer_as_finished(&mut self, id: u8) -> (all_finished: bool)
        requires
            old(self).wf(),
            id < 8,
        ensures
            final(self).wf(),
            final(self).finished_mask() == old(self).finished_mask() | (1u8 << id),
            all_finished == (final(self).reg().count() > 0 && final(self).finished_mask() == full_mask(final(self).reg().count())),
            final(self).reg() == old(self).reg(),
            final(self).producer_view() == old(self).producer_view(),
            final(self).transformer_view() == old(self).transformer_view(),
            final(self).consumers_view() == old(self).consumers_view(),
    {
        let cur_cons_bit: u8 = 1u8 << id;
        let new_mask: u8 = self.consumers_finished | cur_cons_bit;
        self.consumers_finished = new_mask;
        let consumer_count = self.registered.consumer_count();
        assert(consumer_count <= 8);
        proof {
            assert(consumer_count <= 8u8 ==> (1u16 << consumer_count) >= 1u16) by (bit_vector);
            assert(1u8 <= consumer_count <= 8u8 ==> ((((1u16 << consumer_count) - 1u16) as u16) as u8) != 0u8) by (bit_vector);
        }
        let required_mask: u8 = if consumer_count > 0 {
            (((1u16 << consumer_count) - 1) as u16) as u8
        } else {
            0
        };
        new_mask == required_mask && required_mask != 0
    }

    pub fn is_consumer_finished(&self, id: u8) -> (finished: bool)
        requires
            id < 8,
        ensures
            finished == marked(self.finished_mask(), id),
    {
        let cur_cons_bit: u8 = 1u8 << id;
        self.consumers_finished & cur_cons_bit != 0
    }

    pub fn reset_consumers_finished(&mut self)
        ensures
            final(self).finished_mask() == 0,
            old(self).wf() ==> final(self).wf(),
            final(self).reg() == old(self).reg(),
            final(self).producer_view() == old(self).producer_view(),
            final(self).transformer_view() == old(self).transformer_view(),
            final(self).consumers_view() == old(self).consumers_view(),
    {
        self.consumers_finished = 0;
    }

    pub fn producer_state(&self) -> (s: &PS)
        ensures
            *s == self.producer_view(),
    {
        &self.producer
    }

    pub fn consumer_state(&self, id: u8) -> (s: &CS)
        requires
            (id as int) < self.consumers_view().len(),
        ensures
            *s == self.consumers_view()[id as int],
    {
        &self.consumers[id as usize]
    }

    pub fn transformer_state(&self) -> (s: &TS)
        ensures
            *s == self.transformer_view(),
    {
        &self.transformer
    }

    /// Replaces the producer's state.
    pub fn set_producer_state(&mut self, state: PS)
        ensures
            final(self).producer_view() == state,
            final(self).reg() == old(self).reg(),
            final(self).transformer_view() == old(self).transformer_view(),
            final(self).consumers_view() == old(self).consumers_view(),
            final(self).finished_mask() == old(self).finished_mask(),
            old(self).wf() ==> final(self).wf(),
    {
        self.producer = state;
    }

    /// Replaces the state of consumer `id`.
    pub fn set_consumer_state(&mut self, id: u8, state: CS)
        requires
            (id as int) < old(self).consumers_view().len(),
        ensures
            final(self).consumers_view() == old(self).consumers_view().update(id as int, state),
            final(self).reg() == old(self).reg(),
            final(self).producer_view() == old(self).producer_view(),
            final(self).transformer_view() == old(self).transformer_view(),
            final(self).finished_mask() == old(self).finished_mask(),
            old(self).wf() ==> final(self).wf(),
    {
        self.consumers.set(id as usize, state);
    }
}

} // verus!

verus! {

/// Bit `i` of the full mask of `count` consumers is set exactly when `i < count`.
pub proof fn lemma_full_mask_bit(count: u8, i: u8)
    requires
        count <= 8,
        i < 8,
    ensures
        marked(full_mask(count), i) <==> i < count,
{
    assert((count <= 8u8 && i < 8u8) ==> ((full_mask(count) & (1u8 << i) != 0u8) <==> i < count)) by (bit_vector);
}

/// Two masks that agree on every consumer bit are equal.
pub proof fn lemma_mask_ext(a: u8, b: u8)
    requires
        forall|i: u8| i < 8 ==> (marked(a, i) <==> marked(b, i)),
    ensures
        a == b,
{
    assert(marked(a, 0) <==> marked(b, 0));
    assert(marked(a, 1) <==> marked(b, 1));
    assert(marked(a, 2) <==> marked(b, 2));
    assert(marked(a, 3) <==> marked(b, 3));
    assert(marked(a, 4) <==> marked(b, 4));
    assert(marked(a, 5) <==> marked(b, 5));
    assert(marked(a, 6) <==> marked(b, 6));
    assert(marked(a, 7) <==> marked(b, 7));
    assert(((a & 1u8 != 0u8) <==> (b & 1u8 != 0u8)) && ((a & 2u8 != 0u8) <==> (b & 2u8 != 0u8))
        && ((a & 4u8 != 0u8) <==> (b & 4u8 != 0u8)) && ((a & 8u8 != 0u8) <==> (b & 8u8 != 0u8))
        && ((a & 16u8 != 0u8) <==> (b & 16u8 != 0u8)) && ((a & 32u8 != 0u8) <==> (b & 32u8 != 0u8))
        && ((a & 64u8 != 0u8) <==> (b & 64u8 != 0u8)) && ((a & 128u8 != 0u8) <==> (b & 128u8 != 0u8))) by {
        assert((1u8 << 0u8) == 1u8 && (1u8 << 1u8) == 2u8 && (1u8 << 2u8) == 4u8 && (1u8 << 3u8) == 8u8
            && (1u8 << 4u8) == 16u8 && (1u8 << 5u8) == 32u8 && (1u8 << 6u8) == 64u8 && (1u8 << 7u8) == 128u8) by (bit_vector);
    }
    assert(((((a & 1u8 != 0u8) <==> (b & 1u8 != 0u8)) && ((a & 2u8 != 0u8) <==> (b & 2u8 != 0u8))
        && ((a & 4u8 != 0u8) <==> (b & 4u8 != 0u8)) && ((a & 8u8 != 0u8) <==> (b & 8u8 != 0u8))
        && ((a & 16u8 != 0u8) <==> (b & 16u8 != 0u8)) && ((a & 32u8 != 0u8) <==> (b & 32u8 != 0u8))
        && ((a & 64u8 != 0u8) <==> (b & 64u8 != 0u8)) && ((a & 128u8 != 0u8) <==> (b & 128u8 != 0u8)))) ==> a == b) by (bit_vector);
}

/// A mask that marks only consumers below `count` marks them all exactly
/// when it is the full mask of `count`.
pub proof fn lemma_all_marked(mask: u8, count: u8)
    requires
        count <= 8,
        forall|i: u8| count <= i < 8 ==> !marked(mask, i),
    ensures
        mask == full_mask(count) <==> forall|i: u8| i < count ==> marked(mask, i),
{
    if forall|i: u8| i < count ==> marked(mask, i) {
        assert forall|i: u8| i < 8 implies (marked(mask, i) <==> marked(full_mask(count), i)) by {
            lemma_full_mask_bit(count, i);
        }
        lemma_mask_ext(mask, full_mask(count));
    }
    if mask == full_mask(count) {
        assert forall|i: u8| i < count implies marked(mask, i) by {
            lemma_full_mask_bit(count, i);
        }
    }
}

/// Marking a consumer sets its bit and leaves every other bit as it was.
pub proof fn lemma_mark_bit(mask: u8, id: u8, i: u8)
    requires
        id < 8,
        i < 8,
    ensures
        marked(mask | (1u8 << id), i) <==> (i == id || marked(mask, i)),
{
    assert((id < 8u8 && i < 8u8) ==> (((mask | (1u8 << id)) & (1u8 << i) != 0u8) <==> (i == id || (mask & (1u8 << i)) != 0u8))) by (bit_vector);
}

/// The cleared mask marks nobody.
pub proof fn lemma_zero_unmarked(i: u8)
    requires
        i < 8,
    ensures
        !marked(0, i),
{
    assert(i < 8u8 ==> (0u8 & (1u8 << i)) == 0u8) by (bit_vector);
}

} // verus!

verus! {

impl From<u8> for Registration {
    fn from(bits: u8) -> (r: Self)
        ensures
            r == Registration::from_bits_spec(bits),
    {
        Registration { bits }
    }
}

impl vstd::std_specs::convert::FromSpecImpl<u8> for Registration {
    open spec fn obeys_from_spec() -> bool {
        true
    }

    open spec fn from_spec(v: u8) -> Self {
        Registration::from_bits_spec(v)
    }
}

impl From<Registration> for u8 {
    fn from(r: Registration) -> (b: u8)
        ensures
            b == r.raw(),
    {
        r.bits
    }
}

impl vstd::std_specs::convert::FromSpecImpl<Registration> for u8 {
    open spec fn obeys_from_spec() -> bool {
        true
    }

    open spec fn from_spec(v: Registration) -> Self {
        v.raw()
    }
}

/// A registration is determined by its three fields.
pub proof fn lemma_registration_fields_determine(a: Registration, b: Registration)
    requires
        a.has_producer() == b.has_producer(),
        a.has_transformer() == b.has_transformer(),
        a.count() == b.count(),
    ensures
        a == b,
{
    lemma_registration_encoding(a);
    lemma_registration_encoding(b);
}

/// Reading a registration from its byte gives it back, and every byte is the
/// byte of the registration read from it.
pub proof fn lemma_registration_bits_roundtrip(r: Registration, bits: u8)
    ensures
        Registration::from_bits_spec(r.raw()) == r,
        Registration::from_bits_spec(bits).raw() == bits,
{
}

impl Registration {
    /// The registration whose byte is `bits`.
    pub closed spec fn from_bits_spec(bits: u8) -> Self {
        Registration { bits }
    }
}

} // verus!
