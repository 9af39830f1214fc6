//! What the relay hands out: deliveries, and the outcome of one packet.

use vstd::prelude::*;
use rosc::OscPacket;
use crate::codec::encoding;
use crate::control::ProtocolArgumentError;
use crate::endpoint::Endpoint;

verus! {

/// One encoded packet and the destinations that it is to be sent to, in order.
/// The bytes are held once: every destination receives the same ones.
#[derive(Debug)]
pub struct Delivery {
    pub payload: Vec<u8>,
    pub destinations: Vec<Endpoint>,
}

/// A delivery as contracts speak of it.
pub struct DeliveryView {
    pub payload: Seq<u8>,
    pub destinations: Seq<Endpoint>,
}

impl View for Delivery {
    type V = DeliveryView;

    open spec fn view(&self) -> DeliveryView {
        DeliveryView { payload: self.payload@, destinations: self.destinations@ }
    }
}

impl DeliveryView {
    /// The datagrams that carrying out the delivery sends: one for each
    /// destination, all with the same bytes.
    pub open spec fn transmissions(self) -> Seq<(Endpoint, Seq<u8>)> {
        Seq::new(self.destinations.len(), |i: int| (self.destinations[i], self.payload))
    }
}

impl Delivery {
    /// The number of destinations that the delivery is addressed to.
    pub fn attempted(&self) -> (n: usize)
        ensures
            n == self@.destinations.len(),
            n == self@.transmissions().len(),
    {
        self.destinations.len()
    }
}

/// What became of one packet.
#[derive(Debug)]
pub enum Outcome {
    /// A connect command registered a new destination.
    Connected(Endpoint),
    /// A disconnect command withdrew a destination.
    Disconnected(Endpoint),
    /// A command left the registry as it was: a connect for a destination that
    /// is registered, or a disconnect for one that is not.
    Unchanged(Endpoint),
    /// A command was rejected, and the registry left as it was.
    Rejected(ProtocolArgumentError),
    /// The packet is payload: one delivery for a message, one for each packet
    /// that a bundle contains.
    Forwarded(Vec<Delivery>),
}

/// An outcome as contracts speak of it.
pub enum OutcomeView {
    Connected(Endpoint),
    Disconnected(Endpoint),
    Unchanged(Endpoint),
    Rejected(ProtocolArgumentError),
    Forwarded(Seq<DeliveryView>),
}

/// The views of a list of deliveries.
pub open spec fn delivery_views(deliveries: Seq<Delivery>) -> Seq<DeliveryView> {
    Seq::new(deliveries.len(), |i: int| deliveries[i]@)
}

impl View for Outcome {
    type V = OutcomeView;

    open spec fn view(&self) -> OutcomeView {
        match *self {
            Outcome::Connected(e) => OutcomeView::Connected(e),
            Outcome::Disconnected(e) => OutcomeView::Disconnected(e),
            Outcome::Unchanged(e) => OutcomeView::Unchanged(e),
            Outcome::Rejected(e) => OutcomeView::Rejected(e),
            Outcome::Forwarded(deliveries) => OutcomeView::Forwarded(delivery_views(deliveries@)),
        }
    }
}

impl OutcomeView {
    /// The deliveries that the outcome asks for: none unless the packet was
    /// payload.
    pub open spec fn deliveries(self) -> Seq<DeliveryView> {
        match self {
            OutcomeView::Forwarded(deliveries) => deliveries,
            _ => Seq::empty(),
        }
    }
}

impl Outcome {
    /// The number of destinations that each delivery of the outcome is
    /// addressed to; zero where the outcome asks for no delivery.
    pub fn attempted(&self) -> (n: usize)
        ensures
            n == (if self@.deliveries().len() == 0 {
                0
            } else {
                self@.deliveries()[0].destinations.len()
            }),
    {
        match self {
            Outcome::Forwarded(deliveries) => {
                if deliveries.len() == 0 {
                    0
                } else {
                    deliveries[0].attempted()
                }
            },
            _ => 0,
        }
    }
}

/// The delivery of one packet to the destinations of a registry: the packet's
/// encoding, addressed to each of them in order of registration.
pub open spec fn delivery_of(registry: Seq<Endpoint>, packet: OscPacket) -> DeliveryView {
    DeliveryView { payload: encoding(packet), destinations: registry }
}

/// The deliveries of the packets that a bundle contains, one for each, in the
/// bundle's order.
pub open spec fn deliveries_of(registry: Seq<Endpoint>, content: Seq<OscPacket>) -> Seq<
    DeliveryView,
> {
    Seq::new(content.len(), |i: int| delivery_of(registry, content[i]))
}

} // verus!
