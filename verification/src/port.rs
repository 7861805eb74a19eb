//! Ports through which an element reaches its databuses, and the payload
//! sizes an element asks of them.
use vstd::prelude::*;

verus! {

/// Payload sizes an element asks for, in items.
#[derive(Debug, Clone, Copy, PartialEq, Eq, Structural)]
pub struct PayloadSize {
    pub min: u16,
    pub preferred: u16,
}

impl PayloadSize {
    pub open spec fn new_spec(min: u16, preferred: u16) -> Self {
        PayloadSize { min, preferred }
    }

    pub fn new(min: u16, preferred: u16) -> (r: Self)
        ensures
            r == Self::new_spec(min, preferred),
    {
        PayloadSize { min, preferred }
    }
}

/// The data transfer requirements of an element's ports.
#[derive(Debug, Clone, Copy, PartialEq, Eq, Structural)]
pub struct PortRequirements {
    /// The input requirement, if the element reads.
    pub in_: Option<PayloadSize>,
    /// The output requirement; also used for in-place transformation.
    pub out: Option<PayloadSize>,
    /// Whether the element processes in place.
    pub in_place: bool,
    /// Whether the producer needs physically contiguous buffers of exactly the requested size.
    pub strict_alloc: bool,
    /// Whether the consumer consumes the whole of each read payload.
    pub consume_all: bool,
}

impl PortRequirements {
    /// The requirements of an element that reads payloads of `in_size` and writes payloads of `out_size`.
    pub open spec fn payload_to_payload_spec(in_size: PayloadSize, out_size: PayloadSize, strict_alloc: bool, consume_all: bool) -> Self {
        PortRequirements { in_: Some(in_size), out: Some(out_size), in_place: false, strict_alloc, consume_all }
    }

    /// The requirements of an element that transforms payloads of `size` in place.
    pub open spec fn in_place_spec(size: PayloadSize, strict_alloc: bool, consume_all: bool) -> Self {
        PortRequirements { in_: None, out: Some(size), in_place: true, strict_alloc, consume_all }
    }

    /// The requirements of an element that only reads.
    pub open spec fn sink_spec(size: PayloadSize, strict_alloc: bool) -> Self {
        PortRequirements { in_: Some(size), out: None, in_place: false, strict_alloc, consume_all: false }
    }

    /// The requirements of an element that only writes.
    pub open spec fn source_spec(size: PayloadSize, strict_alloc: bool) -> Self {
        PortRequirements { in_: None, out: Some(size), in_place: false, strict_alloc, consume_all: false }
    }

    pub fn new(in_: Option<PayloadSize>, out: Option<PayloadSize>, in_place: bool, strict_alloc: bool, consume_all: bool) -> (r: Self)
        ensures
            r == (PortRequirements { in_, out, in_place, strict_alloc, consume_all }),
    {
        PortRequirements { in_, out, in_place, strict_alloc, consume_all }
    }

    /// An element that reads payloads of `in_size` and writes payloads of `out_size`.
    pub fn new_payload_to_payload(in_size: PayloadSize, out_size: PayloadSize, strict_alloc: bool, consume_all: bool) -> (r: Self)
        ensures
            r == Self::payload_to_payload_spec(in_size, out_size, strict_alloc, consume_all),
    {
        PortRequirements { in_: Some(in_size), out: Some(out_size), in_place: false, strict_alloc, consume_all }
    }

    /// An element that transforms payloads of `size` in place.
    pub fn new_in_place(size: PayloadSize, strict_alloc: bool, consume_all: bool) -> (r: Self)
        ensures
            r == Self::in_place_spec(size, strict_alloc, consume_all),
    {
        PortRequirements { in_: None, out: Some(size), in_place: true, strict_alloc, consume_all }
    }

    /// An element that only reads.
    pub fn sink(size: PayloadSize, strict_alloc: bool) -> (r: Self)
        ensures
            r == Self::sink_spec(size, strict_alloc),
    {
        PortRequirements { in_: Some(size), out: None, in_place: false, strict_alloc, consume_all: false }
    }

    /// An element that only writes.
    pub fn source(size: PayloadSize, strict_alloc: bool) -> (r: Self)
        ensures
            r == Self::source_spec(size, strict_alloc),
    {
        PortRequirements { in_: None, out: Some(size), in_place: false, strict_alloc, consume_all: false }
    }
}

/// A placeholder for the participant of a port that is not connected.
#[derive(Debug)]
pub struct Dmy<T> {
    pub marker: core::marker::PhantomData<T>,
}

impl<T> Dmy<T> {
    pub fn new() -> (r: Self)
        ensures
            r == (Dmy::<T> { marker: core::marker::PhantomData }),
    {
        Dmy { marker: core::marker::PhantomData }
    }
}

impl<T> Default for Dmy<T> {
    fn default() -> (r: Self)
        ensures
            r == (Dmy::<T> { marker: core::marker::PhantomData }),
    {
        Dmy::new()
    }
}

/// The input port of an element.
pub enum InPort<C> {
    Consumer(C),
    NotConnected,
}

impl<T> InPort<Dmy<T>> {
    pub fn new_none() -> (r: Self)
        ensures
            r is NotConnected,
    {
        InPort::NotConnected
    }
}

impl<T> Default for InPort<Dmy<T>> {
    fn default() -> (r: Self)
        ensures
            r is NotConnected,
    {
        InPort::NotConnected
    }
}

impl<C> InPort<C> {
    /// The consumer of a connected port.
    pub fn unwrap(self) -> (c: C)
        requires
            self is Consumer,
        ensures
            self == InPort::Consumer(c),
    {
        match self {
            InPort::Consumer(val) => val,
            InPort::NotConnected => vstd::pervasive::unreached(),
        }
    }

    pub fn consumer_ref(&self) -> (c: &C)
        requires
            self is Consumer,
        ensures
            *self == InPort::Consumer(*c),
    {
        match self {
            InPort::Consumer(val) => val,
            InPort::NotConnected => vstd::pervasive::unreached(),
        }
    }
}

/// The output port of an element.
pub enum OutPort<P> {
    Producer(P),
    NotConnected,
}

impl<T> OutPort<Dmy<T>> {
    pub fn new_none() -> (r: Self)
        ensures
            r is NotConnected,
    {
        OutPort::NotConnected
    }
}

impl<T> Default for OutPort<Dmy<T>> {
    fn default() -> (r: Self)
        ensures
            r is NotConnected,
    {
        OutPort::NotConnected
    }
}

impl<P> OutPort<P> {
    /// The producer of a connected port.
    pub fn unwrap(self) -> (p: P)
        requires
            self is Producer,
        ensures
            self == OutPort::Producer(p),
    {
        match self {
            OutPort::Producer(val) => val,
            OutPort::NotConnected => vstd::pervasive::unreached(),
        }
    }

    pub fn producer_ref(&self) -> (p: &P)
        requires
            self is Producer,
        ensures
            *self == OutPort::Producer(*p),
    {
        match self {
            OutPort::Producer(val) => val,
            OutPort::NotConnected => vstd::pervasive::unreached(),
        }
    }
}

/// The in-place transformation port of an element.
pub enum InPlacePort<T> {
    Transformer(T),
    NotConnected,
}

impl<T> InPlacePort<Dmy<T>> {
    pub fn new_none() -> (r: Self)
        ensures
            r is NotConnected,
    {
        InPlacePort::NotConnected
    }
}

impl<T> Default for InPlacePort<Dmy<T>> {
    fn default() -> (r: Self)
        ensures
            r is NotConnected,
    {
        InPlacePort::NotConnected
    }
}

} // verus!
