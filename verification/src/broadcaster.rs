//! The relay: its settings, its registry, and what it does with a datagram.

use vstd::prelude::*;
use rosc::{OscBundle, OscError, OscMessage, OscPacket, OscType};
use crate::codec::{decode_datagram, decoding, encode_packet, encoding};
use crate::control::{
    derive_port, derived_port, route_for, route_of, ControlCommand, ControlKind, ProtocolArgumentError,
    Route,
};
use crate::endpoint::Endpoint;
use crate::forward::{deliveries_of, delivery_of, delivery_views, Delivery, Outcome, OutcomeView};
use crate::registry::{
    lemma_add_keeps_unique, lemma_without_one, lemma_without_unique, with_endpoint,
    without_endpoint, Registry,
};

verus! {

/// The address that the relay listens on unless told otherwise.
pub const DEFAULT_IP_ADDRESS: &'static str = "0.0.0.0";

/// The port that the relay listens on unless told otherwise.
pub const DEFAULT_PORT: u16 = 32000;

/// The port of a receiver that names none when it connects.
pub const DEFAULT_SEND_PORT: u16 = 12000;

/// The relay's state.
pub struct BroadCaster {
    pub send_addresses: Registry,
    pub send_port: u16,
    pub listen_ip_address: String,
    pub listen_port: u16,
}

/// What the relay made of one datagram.
#[derive(Debug)]
pub enum Reception {
    /// The datagram is no OSC packet. Nothing changed.
    Malformed(OscError),
    /// The datagram held `packet`, and `outcome` is what became of it.
    Handled { packet: OscPacket, outcome: Outcome },
}

/// What the socket reported to the loop that serves the relay.
pub enum SocketEvent<'a> {
    /// A datagram arrived from `source_ip`.
    Datagram { source_ip: u32, bytes: &'a [u8] },
    /// No data yet.
    NoData,
    /// Any other error of the socket.
    Failed,
}

/// What the loop does next.
#[derive(Debug)]
pub enum Step {
    /// Go on receiving, after carrying out what the reception asks for.
    Continue(Option<Reception>),
    /// The socket failed: stop.
    Stop,
}

/// The registry after a datagram from `ip` was handled: a datagram that does
/// not decode leaves it as it is.
pub open spec fn datagram_registry(
    registry: Seq<Endpoint>,
    send_port: u16,
    ip: u32,
    datagram: Seq<u8>,
) -> Seq<Endpoint> {
    match decoding(datagram) {
        Some(packet) => packet_registry(registry, send_port, ip, packet),
        None => registry,
    }
}

/// The registry after the datagrams of `received` were handled in turn, each
/// given with its sender's address.
pub open spec fn registry_after(
    registry: Seq<Endpoint>,
    send_port: u16,
    received: Seq<(u32, Seq<u8>)>,
) -> Seq<Endpoint>
    decreases received.len(),
{
    if received.len() == 0 {
        registry
    } else {
        datagram_registry(
            registry_after(registry, send_port, received.drop_last()),
            send_port,
            received.last().0,
            received.last().1,
        )
    }
}

/// Whether `reception` is what a relay with the given registry owes for a
/// datagram from `ip`.
pub open spec fn is_reception_of(
    reception: Reception,
    registry: Seq<Endpoint>,
    send_port: u16,
    ip: u32,
    datagram: Seq<u8>,
) -> bool {
    match decoding(datagram) {
        Some(decoded) => {
            &&& reception matches Reception::Handled { packet, outcome }
            &&& packet == decoded
            &&& outcome@ == packet_outcome(registry, send_port, ip, decoded)
        },
        None => reception is Malformed,
    }
}

/// The registry after a command was carried out.
pub open spec fn command_registry(registry: Seq<Endpoint>, command: ControlCommand) -> Seq<
    Endpoint,
> {
    match command.kind {
        ControlKind::Connect => with_endpoint(registry, command.target()),
        ControlKind::Disconnect => without_endpoint(registry, command.target()),
    }
}

/// The report on a command: connected only where the destination is new,
/// disconnected only where it was registered.
pub open spec fn command_outcome(registry: Seq<Endpoint>, command: ControlCommand) -> OutcomeView {
    match command.kind {
        ControlKind::Connect => if registry.contains(command.target()) {
            OutcomeView::Unchanged(command.target())
        } else {
            OutcomeView::Connected(command.target())
        },
        ControlKind::Disconnect => if registry.contains(command.target()) {
            OutcomeView::Disconnected(command.target())
        } else {
            OutcomeView::Unchanged(command.target())
        },
    }
}

/// The registry after a top-level message from `ip` was handled.
pub open spec fn message_registry(
    registry: Seq<Endpoint>,
    send_port: u16,
    ip: u32,
    message: OscMessage,
) -> Seq<Endpoint> {
    match route_of(message.addr@) {
        Route::Control(kind) => match derived_port(message.args@, send_port) {
            Ok(port) => command_registry(registry, ControlCommand { kind, source_ip: ip, port }),
            Err(_) => registry,
        },
        Route::Payload => registry,
    }
}

/// The outcome of a top-level message from `ip`.
pub open spec fn message_outcome(
    registry: Seq<Endpoint>,
    send_port: u16,
    ip: u32,
    message: OscMessage,
) -> OutcomeView {
    match route_of(message.addr@) {
        Route::Control(kind) => match derived_port(message.args@, send_port) {
            Ok(port) => command_outcome(registry, ControlCommand { kind, source_ip: ip, port }),
            Err(e) => OutcomeView::Rejected(e),
        },
        Route::Payload => OutcomeView::Forwarded(
            seq![delivery_of(registry, OscPacket::Message(message))],
        ),
    }
}

/// The registry after a packet from `ip` was handled. Only a top-level message
/// can change it.
pub open spec fn packet_registry(
    registry: Seq<Endpoint>,
    send_port: u16,
    ip: u32,
    packet: OscPacket,
) -> Seq<Endpoint> {
    match packet {
        OscPacket::Message(message) => message_registry(registry, send_port, ip, message),
        OscPacket::Bundle(_) => registry,
    }
}

/// The outcome of a packet from `ip`. What a bundle contains is payload,
/// whatever its addresses are.
pub open spec fn packet_outcome(
    registry: Seq<Endpoint>,
    send_port: u16,
    ip: u32,
    packet: OscPacket,
) -> OutcomeView {
    match packet {
        OscPacket::Message(message) => message_outcome(registry, send_port, ip, message),
        OscPacket::Bundle(bundle) => OutcomeView::Forwarded(
            deliveries_of(registry, bundle.content@),
        ),
    }
}

impl Default for BroadCaster {
    fn default() -> (relay: BroadCaster)
        ensures
            relay.send_addresses@ == Seq::<Endpoint>::empty(),
            relay.send_port == DEFAULT_SEND_PORT,
            relay.listen_ip_address@ == DEFAULT_IP_ADDRESS@,
            relay.listen_port == DEFAULT_PORT,
    {
        BroadCaster::new()
    }
}

impl BroadCaster {
    /// A relay with the default settings and no destination.
    pub fn new() -> (relay: BroadCaster)
        ensures
            relay.send_addresses@ == Seq::<Endpoint>::empty(),
            relay.send_port == DEFAULT_SEND_PORT,
            relay.listen_ip_address@ == DEFAULT_IP_ADDRESS@,
            relay.listen_port == DEFAULT_PORT,
    {
        BroadCaster {
            send_addresses: Registry::new(),
            send_port: DEFAULT_SEND_PORT,
            listen_ip_address: DEFAULT_IP_ADDRESS.to_owned(),
            listen_port: DEFAULT_PORT,
        }
    }

    /// True when the call changed nothing but, possibly, the registry.
    pub open spec fn same_settings(self, other: BroadCaster) -> bool {
        &&& self.send_port == other.send_port
        &&& self.listen_ip_address == other.listen_ip_address
        &&& self.listen_port == other.listen_port
    }

    /// Registers the destination `ip_address:port` unless it is registered
    /// already, and says whether it was inserted.
    pub fn push_send_address(&mut self, ip_address: u32, port: u16) -> (inserted: bool)
        ensures
            inserted == !old(self).send_addresses@.contains(Endpoint { ip: ip_address, port }),
            final(self).send_addresses@ == with_endpoint(
                old(self).send_addresses@,
                Endpoint { ip: ip_address, port },
            ),
            final(self).send_addresses@.no_duplicates(),
            final(self).same_settings(*old(self)),
    {
        self.send_addresses.add(Endpoint { ip: ip_address, port })
    }

    /// Withdraws the destination `ip_address:port`, and says whether it was
    /// registered.
    pub fn remove_send_address(&mut self, ip_address: u32, port: u16) -> (removed: bool)
        ensures
            removed == old(self).send_addresses@.contains(Endpoint { ip: ip_address, port }),
            final(self).send_addresses@ == without_endpoint(
                old(self).send_addresses@,
                Endpoint { ip: ip_address, port },
            ),
            final(self).send_addresses@.no_duplicates(),
            final(self).same_settings(*old(self)),
    {
        self.send_addresses.remove(ip_address, port)
    }

    /// Carries out a command on the registry.
    pub fn execute(&mut self, command: ControlCommand) -> (outcome: Outcome)
        ensures
            final(self).send_addresses@ == command_registry(old(self).send_addresses@, command),
            outcome@ == command_outcome(old(self).send_addresses@, command),
            final(self).send_addresses@.no_duplicates(),
            final(self).same_settings(*old(self)),
    {
        let e = command.endpoint();
        match command.kind {
            ControlKind::Connect => {
                if self.send_addresses.add(e) {
                    Outcome::Connected(e)
                } else {
                    Outcome::Unchanged(e)
                }
            },
            ControlKind::Disconnect => {
                if self.send_addresses.remove(e.ip, e.port) {
                    Outcome::Disconnected(e)
                } else {
                    Outcome::Unchanged(e)
                }
            },
        }
    }

    /// The port that a control message names: the default send port where it
    /// has no argument, its first argument where that is an integer from 0 to
    /// 65535, and none otherwise.
    pub fn convert_connection_message_to_port_number(
        &self,
        message: &OscMessage,
    ) -> (port: Result<u16, ProtocolArgumentError>)
        ensures
            port == derived_port(message.args@, self.send_port),
    {
        derive_port(&message.args, self.send_port)
    }

    /// Addresses the given bytes to every registered destination.
    pub fn fan_out(&self, payload: Vec<u8>) -> (delivery: Delivery)
        ensures
            delivery@.payload == payload@,
            delivery@.destinations == self.send_addresses@,
            delivery@.transmissions().len() == self.send_addresses@.len(),
            forall|i: int|
                0 <= i < self.send_addresses@.len() ==> #[trigger] delivery@.transmissions()[i] == (
                    self.send_addresses@[i],
                    payload@,
                ),
    {
        Delivery { payload, destinations: self.send_addresses.snapshot() }
    }

    /// Encodes a packet once and addresses the bytes to every registered
    /// destination.
    pub fn send_message(&self, packet: &OscPacket) -> (delivery: Delivery)
        ensures
            delivery@ == delivery_of(self.send_addresses@, *packet),
    {
        self.fan_out(encode_packet(packet))
    }

    /// Forwards each packet that a bundle contains, as [`Self::send_message`]
    /// does.
    pub fn send_bundle(&self, bundle: &OscBundle) -> (deliveries: Vec<Delivery>)
        ensures
            delivery_views(deliveries@) == deliveries_of(
                self.send_addresses@,
                bundle.content@,
            ),
    {
        let n = bundle.content.len();
        let mut deliveries: Vec<Delivery> = Vec::new();
        let mut i: usize = 0;
        while i < n
            invariant
                n == bundle.content@.len(),
                i <= n,
                deliveries@.len() == i,
                forall|j: int|
                    0 <= j < i ==> (#[trigger] deliveries@[j])@ == delivery_of(
                        self.send_addresses@,
                        bundle.content@[j],
                    ),
            decreases n - i,
        {
            let delivery = self.send_message(&bundle.content[i]);
            deliveries.push(delivery);
            i += 1;
        }
        proof {
            assert(delivery_views(deliveries@) =~= deliveries_of(
                self.send_addresses@,
                bundle.content@,
            ));
        }
        deliveries
    }

    /// Handles a top-level message from `ip_address`: a control message changes
    /// the registry and is never forwarded, any other is forwarded.
    fn handle_message(
        &mut self,
        message: &OscMessage,
        ip_address: u32,
        packet: &OscPacket,
    ) -> (outcome: Outcome)
        requires
            *packet == OscPacket::Message(*message),
        ensures
            final(self).send_addresses@ == message_registry(
                old(self).send_addresses@,
                old(self).send_port,
                ip_address,
                *message,
            ),
            outcome@ == message_outcome(
                old(self).send_addresses@,
                old(self).send_port,
                ip_address,
                *message,
            ),
            final(self).send_addresses@.no_duplicates(),
            final(self).same_settings(*old(self)),
    {
        match route_for(message.addr.as_str()) {
            Route::Control(kind) => {
                match self.convert_connection_message_to_port_number(message) {
                    Ok(port) => self.execute(ControlCommand { kind, source_ip: ip_address, port }),
                    Err(e) => {
                        self.send_addresses.recall_unique();
                        Outcome::Rejected(e)
                    },
                }
            },
            Route::Payload => {
                self.send_addresses.recall_unique();
                let delivery = self.send_message(packet);
                let mut deliveries: Vec<Delivery> = Vec::new();
                deliveries.push(delivery);
                proof {
                    assert(delivery_views(deliveries@) =~= seq![
                        delivery_of(self.send_addresses@, *packet),
                    ]);
                }
                Outcome::Forwarded(deliveries)
            },
        }
    }

    /// Handles a packet from `ip_address`.
    pub fn handle_packet(&mut self, ip_address: u32, packet: &OscPacket) -> (outcome: Outcome)
        ensures
            final(self).send_addresses@ == packet_registry(
                old(self).send_addresses@,
                old(self).send_port,
                ip_address,
                *packet,
            ),
            outcome@ == packet_outcome(
                old(self).send_addresses@,
                old(self).send_port,
                ip_address,
                *packet,
            ),
            final(self).send_addresses@.no_duplicates(),
            final(self).same_settings(*old(self)),
    {
        match packet {
            OscPacket::Message(message) => self.handle_message(message, ip_address, packet),
            OscPacket::Bundle(bundle) => {
                self.send_addresses.recall_unique();
                Outcome::Forwarded(self.send_bundle(bundle))
            },
        }
    }

    /// Handles one datagram from `ip_address`: decodes it and handles the
    /// packet. A datagram that does not decode changes nothing.
    pub fn handle_datagram(&mut self, ip_address: u32, datagram: &[u8]) -> (reception: Reception)
        ensures
            is_reception_of(
                reception,
                old(self).send_addresses@,
                old(self).send_port,
                ip_address,
                datagram@,
            ),
            final(self).send_addresses@ == datagram_registry(
                old(self).send_addresses@,
                old(self).send_port,
                ip_address,
                datagram@,
            ),
            final(self).send_addresses@.no_duplicates(),
            final(self).same_settings(*old(self)),
    {
        match decode_datagram(datagram) {
            Ok(packet) => {
                let outcome = self.handle_packet(ip_address, &packet);
                Reception::Handled { packet, outcome }
            },
            Err(cause) => {
                self.send_addresses.recall_unique();
                Reception::Malformed(cause)
            },
        }
    }

    /// One turn of the loop that serves the relay: a datagram is handled, no
    /// data is waited out, and any other error of the socket ends the loop with
    /// the relay as it was.
    pub fn step(&mut self, event: SocketEvent) -> (step: Step)
        ensures
            final(self).same_settings(*old(self)),
            final(self).send_addresses@.no_duplicates(),
            match event {
                SocketEvent::Datagram { source_ip, bytes } => {
                    &&& step matches Step::Continue(Some(reception))
                    &&& is_reception_of(
                        reception,
                        old(self).send_addresses@,
                        old(self).send_port,
                        source_ip,
                        bytes@,
                    )
                    &&& final(self).send_addresses@ == datagram_registry(
                        old(self).send_addresses@,
                        old(self).send_port,
                        source_ip,
                        bytes@,
                    )
                },
                SocketEvent::NoData => {
                    &&& step matches Step::Continue(None)
                    &&& final(self).send_addresses@ == old(self).send_addresses@
                },
                SocketEvent::Failed => {
                    &&& step is Stop
                    &&& final(self).send_addresses@ == old(self).send_addresses@
                },
            },
    {
        match event {
            SocketEvent::Datagram { source_ip, bytes } => {
                Step::Continue(Some(self.handle_datagram(source_ip, bytes)))
            },
            SocketEvent::NoData => {
                self.send_addresses.recall_unique();
                Step::Continue(None)
            },
            SocketEvent::Failed => {
                self.send_addresses.recall_unique();
                Step::Stop
            },
        }
    }
}

/// Forwarding a message that is no control message asks for one datagram to
/// each registered destination, as many as there are destinations, all with the
/// bytes of the one encoding of the packet; the registry stays as it is.
pub proof fn lemma_fan_out_total(
    registry: Seq<Endpoint>,
    send_port: u16,
    ip: u32,
    packet: OscPacket,
    message: OscMessage,
)
    requires
        packet == OscPacket::Message(message),
        route_of(message.addr@) == Route::Payload,
    ensures
        packet_registry(registry, send_port, ip, packet) == registry,
        packet_outcome(registry, send_port, ip, packet).deliveries() == seq![
            delivery_of(registry, packet),
        ],
        delivery_of(registry, packet).transmissions().len() == registry.len(),
        forall|i: int|
            0 <= i < registry.len() ==> #[trigger] delivery_of(registry, packet).transmissions()[i]
                == (registry[i], encoding(packet)),
{
}

/// A top-level message addressed to one of the two reserved addresses is never
/// forwarded: its outcome asks for no delivery.
pub proof fn lemma_control_is_not_forwarded(
    registry: Seq<Endpoint>,
    send_port: u16,
    ip: u32,
    packet: OscPacket,
    message: OscMessage,
)
    requires
        packet == OscPacket::Message(message),
        message.addr@ == "/server/connect"@ || message.addr@ == "/server/disconnect"@,
    ensures
        !(packet_outcome(registry, send_port, ip, packet) is Forwarded),
        packet_outcome(registry, send_port, ip, packet).deliveries().len() == 0,
{
}

/// A bundle is payload whatever it contains: the registry stays as it is, and
/// each contained packet is delivered to every registered destination.
pub proof fn lemma_bundle_is_payload(
    registry: Seq<Endpoint>,
    send_port: u16,
    ip: u32,
    packet: OscPacket,
    bundle: OscBundle,
)
    requires
        packet == OscPacket::Bundle(bundle),
    ensures
        packet_registry(registry, send_port, ip, packet) == registry,
        packet_outcome(registry, send_port, ip, packet).deliveries().len()
            == bundle.content@.len(),
        forall|i: int|
            0 <= i < bundle.content@.len() ==> #[trigger] packet_outcome(
                registry,
                send_port,
                ip,
                packet,
            ).deliveries()[i] == delivery_of(registry, bundle.content@[i]),
{
}

/// Handling a packet keeps the entries of the registry distinct.
pub proof fn lemma_packet_keeps_unique(
    registry: Seq<Endpoint>,
    send_port: u16,
    ip: u32,
    packet: OscPacket,
)
    requires
        registry.no_duplicates(),
    ensures
        packet_registry(registry, send_port, ip, packet).no_duplicates(),
{
    match packet {
        OscPacket::Message(message) => {
            match route_of(message.addr@) {
                Route::Control(kind) => {
                    match derived_port(message.args@, send_port) {
                        Ok(port) => {
                            let e = Endpoint { ip, port };
                            lemma_add_keeps_unique(registry, e);
                            lemma_without_unique(registry, e);
                        },
                        Err(_) => {},
                    }
                },
                Route::Payload => {},
            }
        },
        OscPacket::Bundle(_) => {},
    }
}

/// A connect message without arguments registers the sender at the default
/// send port, and one whose first argument is an integer from 0 to 65535
/// registers the sender at that port. One whose first argument is any other
/// integer is rejected and leaves the registry as it is.
pub proof fn lemma_connect_port(
    registry: Seq<Endpoint>,
    send_port: u16,
    ip: u32,
    message: OscMessage,
)
    requires
        message.addr@ == "/server/connect"@,
    ensures
        message.args@.len() == 0 ==> packet_registry(
            registry,
            send_port,
            ip,
            OscPacket::Message(message),
        ) == with_endpoint(registry, Endpoint { ip, port: send_port }),
        message.args@.len() > 0 ==> (message.args@[0] matches OscType::Int(value) ==> if 0 <= value
            <= 65535 {
            packet_registry(registry, send_port, ip, OscPacket::Message(message)) == with_endpoint(
                registry,
                Endpoint { ip, port: value as u16 },
            )
        } else {
            &&& packet_registry(registry, send_port, ip, OscPacket::Message(message)) == registry
            &&& packet_outcome(registry, send_port, ip, OscPacket::Message(message))
                == OutcomeView::Rejected(ProtocolArgumentError::PortOutOfRange)
        }),
{
}

/// A control message whose first argument names no port, because it is no
/// integer or an integer outside 0 to 65535, is rejected: the registry stays as
/// it is and nothing is forwarded.
pub proof fn lemma_rejected_changes_nothing(
    registry: Seq<Endpoint>,
    send_port: u16,
    ip: u32,
    message: OscMessage,
)
    requires
        route_of(message.addr@) is Control,
        message.args@.len() > 0,
        !(message.args@[0] matches OscType::Int(value) && 0 <= value <= 65535),
    ensures
        packet_registry(registry, send_port, ip, OscPacket::Message(message)) == registry,
        packet_outcome(registry, send_port, ip, OscPacket::Message(message)) is Rejected,
{
}

/// Handling a packet changes the registry by one entry at most: it stays as it
/// is, or one destination with the sender's address is appended, or the one
/// entry of such a destination is withdrawn.
pub proof fn lemma_one_change(registry: Seq<Endpoint>, send_port: u16, ip: u32, packet: OscPacket)
    requires
        registry.no_duplicates(),
    ensures
        ({
            let after = packet_registry(registry, send_port, ip, packet);
            ||| after == registry
            ||| exists|e: Endpoint|
                e.ip == ip && !registry.contains(e) && after == #[trigger] registry.push(e)
            ||| exists|e: Endpoint|
                e.ip == ip && registry.contains(e) && after == #[trigger] without_endpoint(
                    registry,
                    e,
                ) && after.len() == registry.len() - 1
        }),
{
    match packet {
        OscPacket::Message(message) => {
            match route_of(message.addr@) {
                Route::Control(kind) => {
                    match derived_port(message.args@, send_port) {
                        Ok(port) => {
                            let target = Endpoint { ip, port };
                            let after = packet_registry(registry, send_port, ip, packet);
                            lemma_without_unique(registry, target);
                            if registry.contains(target) {
                                lemma_without_one(registry, target);
                                if kind == ControlKind::Disconnect {
                                    assert(after == without_endpoint(registry, target));
                                }
                            } else if kind == ControlKind::Connect {
                                assert(after == registry.push(target));
                            }
                        },
                        Err(_) => {},
                    }
                },
                Route::Payload => {},
            }
        },
        OscPacket::Bundle(_) => {},
    }
}

/// A destination enters the registry only by a connect message. It carries the
/// sender's address, and its port is the default send port where the message
/// has no argument and else the integer that is the message's first argument:
/// never another.
pub proof fn lemma_registered_port(
    registry: Seq<Endpoint>,
    send_port: u16,
    ip: u32,
    packet: OscPacket,
    e: Endpoint,
)
    requires
        packet_registry(registry, send_port, ip, packet).contains(e),
        !registry.contains(e),
    ensures
        packet matches OscPacket::Message(message) && route_of(message.addr@) == Route::Control(
            ControlKind::Connect,
        ) && (if message.args@.len() == 0 {
            e.port == send_port
        } else {
            message.args@[0] == OscType::Int(e.port as i32)
        }),
        e.ip == ip,
        packet_registry(registry, send_port, ip, packet) == registry.push(e),
{
    match packet {
        OscPacket::Message(message) => {
            match route_of(message.addr@) {
                Route::Control(kind) => {
                    match derived_port(message.args@, send_port) {
                        Ok(port) => {
                            let target = Endpoint { ip, port };
                            match kind {
                                ControlKind::Connect => {
                                    let grown = with_endpoint(registry, target);
                                    let k = choose|k: int| 0 <= k < grown.len() && grown[k] == e;
                                    if k < registry.len() {
                                        assert(registry[k] == e);
                                    }
                                },
                                ControlKind::Disconnect => {
                                    lemma_without_unique(registry, target);
                                },
                            }
                        },
                        Err(_) => {},
                    }
                },
                Route::Payload => {},
            }
        },
        OscPacket::Bundle(_) => {},
    }
}

/// Whatever datagrams arrive, from whomever and in whatever order, no two
/// entries of the registry are the same destination.
pub proof fn lemma_relay_keeps_unique(
    registry: Seq<Endpoint>,
    send_port: u16,
    received: Seq<(u32, Seq<u8>)>,
)
    requires
        registry.no_duplicates(),
    ensures
        registry_after(registry, send_port, received).no_duplicates(),
    decreases received.len(),
{
    if received.len() > 0 {
        let before = registry_after(registry, send_port, received.drop_last());
        lemma_relay_keeps_unique(registry, send_port, received.drop_last());
        match decoding(received.last().1) {
            Some(packet) => {
                lemma_packet_keeps_unique(before, send_port, received.last().0, packet);
            },
            None => {},
        }
    }
}

} // verus!
