//! Events for relayers: which of them are handed on, and with which packet.
//!
//! An event that speaks of a packet names it only by channel, port and
//! sequence number. Before such an event is handed on, the packet as it was
//! stored is looked up and put in its place. The looking up is left to the
//! caller: `packet_query` says what to ask for, and
//! `filter_map_pallet_event` takes what was found.

use vstd::prelude::*;
use crate::height::Height;
use crate::timestamp::Timestamp;

verus! {

/// A packet sent from one chain to another.
#[derive(Clone, Debug, PartialEq, Eq)]
pub struct Packet {
    pub sequence: u64,
    pub source_port: String,
    pub source_channel: String,
    pub destination_port: String,
    pub destination_channel: String,
    pub data: Vec<u8>,
    pub timeout_height: Height,
    pub timeout_timestamp: Timestamp,
}

/// What the packet store holds of a packet: the packet, and its
/// acknowledgement once there is one.
#[derive(Clone, Debug, PartialEq, Eq)]
pub struct PacketInfo {
    pub packet: Packet,
    pub ack: Option<Vec<u8>>,
}

/// An event as a relayer sees it. The events that carry no packet hold
/// nothing here: the caller keeps what they hold.
#[derive(Clone, Debug, PartialEq, Eq)]
pub enum IbcEvent {
    NewBlock,
    AppModule,
    Empty,
    ChainError,
    SendPacket { height: Height, packet: Packet },
    ReceivePacket { height: Height, packet: Packet },
    WriteAcknowledgement { height: Height, packet: Packet, ack: Vec<u8> },
    AcknowledgePacket { height: Height, packet: Packet },
    TimeoutPacket { height: Height, packet: Packet },
    TimeoutOnClosePacket { height: Height, packet: Packet },
    /// Any other event.
    Other,
}

/// The two halves of the packet store.
#[derive(Clone, Copy, Debug, PartialEq, Eq, Structural)]
pub enum PacketStore {
    /// The packets that this chain sent.
    Sent,
    /// The packets that this chain received.
    Received,
}

/// A question to the packet store.
#[derive(Clone, Debug, PartialEq, Eq)]
pub struct PacketQuery {
    pub store: PacketStore,
    pub channel_id: String,
    pub port_id: String,
    pub sequence: u64,
}

impl IbcEvent {
    /// The event is never handed on to a relayer.
    pub open spec fn is_dropped(self) -> bool {
        self is NewBlock || self is AppModule || self is Empty || self is ChainError
    }

    /// The packet that the event speaks of.
    pub open spec fn packet(self) -> Option<Packet> {
        match self {
            IbcEvent::SendPacket { packet, .. } => Some(packet),
            IbcEvent::ReceivePacket { packet, .. } => Some(packet),
            IbcEvent::WriteAcknowledgement { packet, .. } => Some(packet),
            IbcEvent::AcknowledgePacket { packet, .. } => Some(packet),
            IbcEvent::TimeoutPacket { packet, .. } => Some(packet),
            IbcEvent::TimeoutOnClosePacket { packet, .. } => Some(packet),
            _ => None,
        }
    }

    /// The half of the packet store that holds the event's packet: a packet
    /// is stored where it was received for the events of its receipt and of
    /// the acknowledgement written for it, and where it was sent for the
    /// others.
    pub open spec fn store(self) -> PacketStore {
        if self is ReceivePacket || self is WriteAcknowledgement {
            PacketStore::Received
        } else {
            PacketStore::Sent
        }
    }

    /// The event with the stored packet, and the stored acknowledgement, in
    /// place of its own; `None` where the event is to carry an
    /// acknowledgement and none is stored. The height stays.
    pub open spec fn with_stored(self, info: PacketInfo) -> Option<IbcEvent> {
        match self {
            IbcEvent::SendPacket { height, .. } => Some(
                IbcEvent::SendPacket { height, packet: info.packet },
            ),
            IbcEvent::ReceivePacket { height, .. } => Some(
                IbcEvent::ReceivePacket { height, packet: info.packet },
            ),
            IbcEvent::WriteAcknowledgement { height, .. } => match info.ack {
                Some(ack) => Some(
                    IbcEvent::WriteAcknowledgement { height, packet: info.packet, ack },
                ),
                None => None,
            },
            IbcEvent::AcknowledgePacket { height, .. } => Some(
                IbcEvent::AcknowledgePacket { height, packet: info.packet },
            ),
            IbcEvent::TimeoutPacket { height, .. } => Some(
                IbcEvent::TimeoutPacket { height, packet: info.packet },
            ),
            IbcEvent::TimeoutOnClosePacket { height, .. } => Some(
                IbcEvent::TimeoutOnClosePacket { height, packet: info.packet },
            ),
            _ => Some(self),
        }
    }
}

/// What to ask the packet store before `ev` is handed on: nothing for an
/// event without a packet, else for the packet by its sequence number, on the
/// side of the channel where it is stored.
pub open spec fn spec_packet_query(ev: IbcEvent) -> Option<PacketQuery> {
    match ev.packet() {
        Some(packet) => Some(
            match ev.store() {
                PacketStore::Sent => PacketQuery {
                    store: PacketStore::Sent,
                    channel_id: packet.source_channel,
                    port_id: packet.source_port,
                    sequence: packet.sequence,
                },
                PacketStore::Received => PacketQuery {
                    store: PacketStore::Received,
                    channel_id: packet.destination_channel,
                    port_id: packet.destination_port,
                    sequence: packet.sequence,
                },
            },
        ),
        None => None,
    }
}

/// What a relayer gets of `ev`, where `found` is the packet store's answer to
/// `spec_packet_query(ev)`, `None` standing for no answer.
///
/// The events of new blocks and of application modules, the empty event and
/// the chain's errors are dropped. An event with a packet is handed on with
/// the first packet found in place of its own, and dropped where none was
/// found. Every other event is handed on as it is.
pub open spec fn spec_filter_map(ev: IbcEvent, found: Option<Seq<PacketInfo>>) -> Option<
    IbcEvent,
> {
    if ev.is_dropped() {
        None
    } else if ev.packet().is_some() {
        match found {
            Some(infos) => if infos.len() > 0 {
                ev.with_stored(infos[0])
            } else {
                None
            },
            None => None,
        }
    } else {
        Some(ev)
    }
}

fn sent_query(packet: &Packet) -> (q: PacketQuery)
    ensures
        q == (PacketQuery {
            store: PacketStore::Sent,
            channel_id: packet.source_channel,
            port_id: packet.source_port,
            sequence: packet.sequence,
        }),
{
    PacketQuery {
        store: PacketStore::Sent,
        channel_id: packet.source_channel.clone(),
        port_id: packet.source_port.clone(),
        sequence: packet.sequence,
    }
}

fn received_query(packet: &Packet) -> (q: PacketQuery)
    ensures
        q == (PacketQuery {
            store: PacketStore::Received,
            channel_id: packet.destination_channel,
            port_id: packet.destination_port,
            sequence: packet.sequence,
        }),
{
    PacketQuery {
        store: PacketStore::Received,
        channel_id: packet.destination_channel.clone(),
        port_id: packet.destination_port.clone(),
        sequence: packet.sequence,
    }
}

/// What to ask the packet store before `ev` is handed on.
pub fn packet_query(ev: &IbcEvent) -> (q: Option<PacketQuery>)
    ensures
        q == spec_packet_query(*ev),
{
    match ev {
        IbcEvent::SendPacket { packet, .. } => Some(sent_query(packet)),
        IbcEvent::ReceivePacket { packet, .. } => Some(received_query(packet)),
        IbcEvent::WriteAcknowledgement { packet, .. } => Some(received_query(packet)),
        IbcEvent::AcknowledgePacket { packet, .. } => Some(sent_query(packet)),
        IbcEvent::TimeoutPacket { packet, .. } => Some(sent_query(packet)),
        IbcEvent::TimeoutOnClosePacket { packet, .. } => Some(sent_query(packet)),
        _ => None,
    }
}

/// The first of the stored packets that were found, if there is one.
fn first_found(found: Option<Vec<PacketInfo>>) -> (first: Option<PacketInfo>)
    ensures
        first == match found {
            Some(infos) => if infos@.len() > 0 {
                Some(infos@[0])
            } else {
                None
            },
            None => None,
        },
{
    match found {
        Some(mut infos) => {
            if infos.len() > 0 {
                Some(infos.swap_remove(0))
            } else {
                None
            }
        },
        None => None,
    }
}

/// Decides whether a relayer gets `ev`, and puts the stored packet in the
/// place of the event's own. `found` is the packet store's answer to
/// `packet_query(&ev)`: `None` where the store gave none, or was not asked.
pub fn filter_map_pallet_event(ev: IbcEvent, found: Option<Vec<PacketInfo>>) -> (r: Option<
    IbcEvent,
>)
    ensures
        r == spec_filter_map(
            ev,
            match found {
                Some(infos) => Some(infos@),
                None => None,
            },
        ),
{
    match ev {
        IbcEvent::SendPacket { height, .. } => {
            let info = first_found(found)?;
            Some(IbcEvent::SendPacket { height, packet: info.packet })
        },
        IbcEvent::ReceivePacket { height, .. } => {
            let info = first_found(found)?;
            Some(IbcEvent::ReceivePacket { height, packet: info.packet })
        },
        IbcEvent::WriteAcknowledgement { height, .. } => {
            let info = first_found(found)?;
            let ack = info.ack?;
            Some(IbcEvent::WriteAcknowledgement { height, packet: info.packet, ack })
        },
        IbcEvent::AcknowledgePacket { height, .. } => {
            let info = first_found(found)?;
            Some(IbcEvent::AcknowledgePacket { height, packet: info.packet })
        },
        IbcEvent::TimeoutPacket { height, .. } => {
            let info = first_found(found)?;
            Some(IbcEvent::TimeoutPacket { height, packet: info.packet })
        },
        IbcEvent::TimeoutOnClosePacket { height, .. } => {
            let info = first_found(found)?;
            Some(IbcEvent::TimeoutOnClosePacket { height, packet: info.packet })
        },
        IbcEvent::NewBlock | IbcEvent::AppModule | IbcEvent::Empty | IbcEvent::ChainError => None,
        IbcEvent::Other => Some(ev),
    }
}

} // verus!
