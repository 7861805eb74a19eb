//! The databus interface: registration of the participants that share a bus,
//! and the handles through which they reach it.
use vstd::prelude::*;
use crate::port::{PayloadSize, PortRequirements};
use crate::registry::Registration;

verus! {

/// The kinds of access a participant has to a databus.
#[derive(Debug, Clone, Copy, PartialEq, Eq, Structural)]
pub enum Operation {
    Produce,
    Consume,
    InPlace,
}

impl Operation {
    /// How many kinds of access there are.
    pub const COUNT: usize = 3;
}

/// A shared medium through which one producer, an optional in-place
/// transformer and several consumers exchange payloads of `Item`s.
pub trait Databus {
    type Item;

    /// The bus's own invariant.
    spec fn wf(&self) -> bool;

    /// Which participants are registered.
    spec fn registration_of(&self) -> Registration;

    /// Whether a producer with these requirements can register now.
    spec fn accepts_producer(&self, payload_size: PayloadSize, strict_alloc: bool) -> bool;

    /// Whether a consumer with these requirements can register now.
    spec fn accepts_consumer(&self, payload_size: PayloadSize, consume_all: bool) -> bool;

    /// Whether a transformer with these requirements can register now.
    spec fn accepts_transformer(&self, payload_size: PayloadSize, strict_alloc: bool, consume_all: bool) -> bool;

    /// What registering a producer with these requirements does to the bus's
    /// own state, beside its registration: `after` is the bus afterwards.
    spec fn producer_registered(&self, after: &Self, payload_size: PayloadSize, strict_alloc: bool) -> bool;

    /// What registering a consumer with these requirements does to the bus's
    /// own state, beside its registration: `after` is the bus afterwards.
    spec fn consumer_registered(&self, after: &Self, payload_size: PayloadSize, consume_all: bool) -> bool;

    /// What registering the transformer with these requirements does to the
    /// bus's own state, beside its registration: `after` is the bus afterwards.
    spec fn transformer_registered(&self, after: &Self, payload_size: PayloadSize, strict_alloc: bool, consume_all: bool) -> bool;

    /// Whether a producer with these requirements can register now.
    fn can_register_producer(&self, payload_size: PayloadSize, strict_alloc: bool) -> (b: bool)
        requires
            self.wf(),
        ensures
            b == self.accepts_producer(payload_size, strict_alloc),
    ;

    /// Whether a consumer with these requirements can register now.
    fn can_register_consumer(&self, payload_size: PayloadSize, consume_all: bool) -> (b: bool)
        requires
            self.wf(),
        ensures
            b == self.accepts_consumer(payload_size, consume_all),
    ;

    /// Whether a transformer with these requirements can register now.
    fn can_register_transformer(&self, payload_size: PayloadSize, strict_alloc: bool, consume_all: bool) -> (b: bool)
        requires
            self.wf(),
        ensures
            b == self.accepts_transformer(payload_size, strict_alloc, consume_all),
    ;

    fn do_register_producer(&mut self, payload_size: PayloadSize, strict_alloc: bool)
        requires
            old(self).wf(),
            old(self).accepts_producer(payload_size, strict_alloc),
        ensures
            final(self).wf(),
            final(self).registration_of().has_producer(),
            final(self).registration_of().has_transformer() == old(self).registration_of().has_transformer(),
            final(self).registration_of().count() == old(self).registration_of().count(),
            old(self).producer_registered(&*final(self), payload_size, strict_alloc),
    ;

    fn do_register_consumer(&mut self, payload_size: PayloadSize, consume_all: bool) -> (id: u8)
        requires
            old(self).wf(),
            old(self).accepts_consumer(payload_size, consume_all),
        ensures
            final(self).wf(),
            id == old(self).registration_of().count(),
            final(self).registration_of().count() == id + 1,
            final(self).registration_of().has_producer() == old(self).registration_of().has_producer(),
            final(self).registration_of().has_transformer() == old(self).registration_of().has_transformer(),
            old(self).consumer_registered(&*final(self), payload_size, consume_all),
    ;

    fn do_register_transformer(&mut self, payload_size: PayloadSize, strict_alloc: bool, consume_all: bool)
        requires
            old(self).wf(),
            old(self).accepts_transformer(payload_size, strict_alloc, consume_all),
        ensures
            final(self).wf(),
            final(self).registration_of().has_transformer(),
            final(self).registration_of().has_producer() == old(self).registration_of().has_producer(),
            final(self).registration_of().count() == old(self).registration_of().count(),
            old(self).transformer_registered(&*final(self), payload_size, strict_alloc, consume_all),
    ;
}

/// The producer of a databus of type `D`.
pub struct ProducerHandle<D> {
    pub inner: core::marker::PhantomData<D>,
}

/// A consumer of a databus of type `D`, known to the bus by `id`.
pub struct ConsumerHandle<D> {
    pub inner: core::marker::PhantomData<D>,
    pub id: u8,
}

/// The in-place transformer of a databus of type `D`.
pub struct TransformerHandle<D> {
    pub inner: core::marker::PhantomData<D>,
}

impl<D: Databus> ProducerHandle<D> {
    /// Registers a producer on `databus`.
    pub fn new(databus: &mut D, payload_size: PayloadSize, strict_alloc: bool) -> (r: Self)
        requires
            old(databus).wf(),
            old(databus).accepts_producer(payload_size, strict_alloc),
        ensures
            final(databus).wf(),
            final(databus).registration_of().has_producer(),
            final(databus).registration_of().has_transformer() == old(databus).registration_of().has_transformer(),
            final(databus).registration_of().count() == old(databus).registration_of().count(),
            old(databus).producer_registered(&*final(databus), payload_size, strict_alloc),
    {
        databus.do_register_producer(payload_size, strict_alloc);
        ProducerHandle { inner: core::marker::PhantomData }
    }

    /// Registers a producer if the requirements ask for an output.
    pub fn from_port_requirements(databus: &mut D, reqs: &PortRequirements) -> (r: Option<Self>)
        requires
            old(databus).wf(),
            reqs.out matches Some(ps) ==> old(databus).accepts_producer(ps, reqs.strict_alloc),
        ensures
            final(databus).wf(),
            r is Some <==> reqs.out is Some,
            r is Some ==> {
                &&& final(databus).registration_of().has_producer()
                &&& final(databus).registration_of().has_transformer() == old(databus).registration_of().has_transformer()
                &&& final(databus).registration_of().count() == old(databus).registration_of().count()
                &&& old(databus).producer_registered(&*final(databus), reqs.out->0, reqs.strict_alloc)
            },
            r is None ==> *final(databus) == *old(databus),
    {
        match reqs.out {
            Some(payload_size) => Some(Self::new(databus, payload_size, reqs.strict_alloc)),
            None => None,
        }
    }
}

impl<D: Databus> ConsumerHandle<D> {
    /// Registers a consumer on `databus`; its id is the number of consumers before it.
    pub fn new(databus: &mut D, payload_size: PayloadSize, consume_all: bool) -> (r: Self)
        requires
            old(databus).wf(),
            old(databus).accepts_consumer(payload_size, consume_all),
        ensures
            final(databus).wf(),
            r.id == old(databus).registration_of().count(),
            final(databus).registration_of().count() == r.id + 1,
            final(databus).registration_of().has_producer() == old(databus).registration_of().has_producer(),
            final(databus).registration_of().has_transformer() == old(databus).registration_of().has_transformer(),
            old(databus).consumer_registered(&*final(databus), payload_size, consume_all),
    {
        let id = databus.do_register_consumer(payload_size, consume_all);
        ConsumerHandle { inner: core::marker::PhantomData, id }
    }

    /// Registers a consumer if the requirements ask for an input.
    pub fn from_port_requirements(databus: &mut D, reqs: &PortRequirements) -> (r: Option<Self>)
        requires
            old(databus).wf(),
            reqs.in_ matches Some(ps) ==> old(databus).accepts_consumer(ps, reqs.consume_all),
        ensures
            final(databus).wf(),
            r is Some <==> reqs.in_ is Some,
            r matches Some(h) ==> {
                &&& h.id == old(databus).registration_of().count()
                &&& final(databus).registration_of().count() == h.id + 1
                &&& final(databus).registration_of().has_producer() == old(databus).registration_of().has_producer()
                &&& final(databus).registration_of().has_transformer() == old(databus).registration_of().has_transformer()
                &&& old(databus).consumer_registered(&*final(databus), reqs.in_->0, reqs.consume_all)
            },
            r is None ==> *final(databus) == *old(databus),
    {
        match reqs.in_ {
            Some(payload_size) => Some(Self::new(databus, payload_size, reqs.consume_all)),
            None => None,
        }
    }
}

impl<D: Databus> TransformerHandle<D> {
    /// Registers the in-place transformer on `databus`.
    pub fn new(databus: &mut D, payload_size: PayloadSize, strict_alloc: bool, consume_all: bool) -> (r: Self)
        requires
            old(databus).wf(),
            old(databus).accepts_transformer(payload_size, strict_alloc, consume_all),
        ensures
            final(databus).wf(),
            final(databus).registration_of().has_transformer(),
            final(databus).registration_of().has_producer() == old(databus).registration_of().has_producer(),
            final(databus).registration_of().count() == old(databus).registration_of().count(),
            old(databus).transformer_registered(&*final(databus), payload_size, strict_alloc, consume_all),
    {
        databus.do_register_transformer(payload_size, strict_alloc, consume_all);
        TransformerHandle { inner: core::marker::PhantomData }
    }

    /// Registers a transformer if the requirements ask for in-place processing of an output.
    pub fn from_port_requirements(databus: &mut D, reqs: &PortRequirements) -> (r: Option<Self>)
        requires
            old(databus).wf(),
            reqs.out matches Some(ps) ==> (reqs.in_place ==> old(databus).accepts_transformer(ps, reqs.strict_alloc, reqs.consume_all)),
        ensures
            final(databus).wf(),
            r is Some <==> (reqs.out is Some && reqs.in_place),
            r is Some ==> {
                &&& final(databus).registration_of().has_transformer()
                &&& final(databus).registration_of().has_producer() == old(databus).registration_of().has_producer()
                &&& final(databus).registration_of().count() == old(databus).registration_of().count()
                &&& old(databus).transformer_registered(&*final(databus), reqs.out->0, reqs.strict_alloc, reqs.consume_all)
            },
            r is None ==> *final(databus) == *old(databus),
    {
        match reqs.out {
            Some(payload_size) => {
                if reqs.in_place {
                    Some(Self::new(databus, payload_size, reqs.strict_alloc, reqs.consume_all))
                } else {
                    None
                }
            },
            None => None,
        }
    }
}

} // verus!
