use ics07_tendermint::events::{
    filter_map_pallet_event, packet_query, IbcEvent, Packet, PacketInfo, PacketQuery, PacketStore,
};
use ics07_tendermint::height::Height;
use ics07_tendermint::timestamp::Timestamp;

fn bare_packet(sequence: u64) -> Packet {
    Packet {
        sequence,
        source_port: "transfer".to_string(),
        source_channel: "channel-0".to_string(),
        destination_port: "bank".to_string(),
        destination_channel: "channel-9".to_string(),
        data: Vec::new(),
        timeout_height: Height::zero(),
        timeout_timestamp: Timestamp::none(),
    }
}

fn stored_packet(sequence: u64) -> Packet {
    Packet {
        data: vec![1, 2, 3],
        timeout_height: Height::new(0, 100),
        timeout_timestamp: Timestamp::from_nanoseconds(5_000),
        ..bare_packet(sequence)
    }
}

fn stored(sequence: u64, ack: Option<Vec<u8>>) -> PacketInfo {
    PacketInfo { packet: stored_packet(sequence), ack }
}

fn on_sender(sequence: u64) -> PacketQuery {
    PacketQuery {
        store: PacketStore::Sent,
        channel_id: "channel-0".to_string(),
        port_id: "transfer".to_string(),
        sequence,
    }
}

fn on_receiver(sequence: u64) -> PacketQuery {
    PacketQuery {
        store: PacketStore::Received,
        channel_id: "channel-9".to_string(),
        port_id: "bank".to_string(),
        sequence,
    }
}

#[test]
fn events_of_sent_packets_ask_the_sender_side() {
    let h = Height::new(0, 1);
    let p = bare_packet(4);
    assert_eq!(
        packet_query(&IbcEvent::SendPacket { height: h, packet: p.clone() }),
        Some(on_sender(4))
    );
    assert_eq!(
        packet_query(&IbcEvent::AcknowledgePacket { height: h, packet: p.clone() }),
        Some(on_sender(4))
    );
    assert_eq!(
        packet_query(&IbcEvent::TimeoutPacket { height: h, packet: p.clone() }),
        Some(on_sender(4))
    );
    assert_eq!(
        packet_query(&IbcEvent::TimeoutOnClosePacket { height: h, packet: p }),
        Some(on_sender(4))
    );
}

#[test]
fn events_of_received_packets_ask_the_receiver_side() {
    let h = Height::new(0, 1);
    let p = bare_packet(6);
    assert_eq!(
        packet_query(&IbcEvent::ReceivePacket { height: h, packet: p.clone() }),
        Some(on_receiver(6))
    );
    assert_eq!(
        packet_query(&IbcEvent::WriteAcknowledgement { height: h, packet: p, ack: Vec::new() }),
        Some(on_receiver(6))
    );
}

#[test]
fn events_without_a_packet_ask_nothing() {
    assert_eq!(packet_query(&IbcEvent::NewBlock), None);
    assert_eq!(packet_query(&IbcEvent::AppModule), None);
    assert_eq!(packet_query(&IbcEvent::Empty), None);
    assert_eq!(packet_query(&IbcEvent::ChainError), None);
    assert_eq!(packet_query(&IbcEvent::Other), None);
}

#[test]
fn four_kinds_of_event_are_always_dropped() {
    for found in [None, Some(Vec::new()), Some(vec![stored(1, Some(vec![7]))])] {
        assert_eq!(filter_map_pallet_event(IbcEvent::NewBlock, found.clone()), None);
        assert_eq!(filter_map_pallet_event(IbcEvent::AppModule, found.clone()), None);
        assert_eq!(filter_map_pallet_event(IbcEvent::Empty, found.clone()), None);
        assert_eq!(filter_map_pallet_event(IbcEvent::ChainError, found), None);
    }
}

#[test]
fn other_events_are_handed_on_as_they_are() {
    for found in [None, Some(Vec::new()), Some(vec![stored(1, None)])] {
        assert_eq!(filter_map_pallet_event(IbcEvent::Other, found), Some(IbcEvent::Other));
    }
}

#[test]
fn a_packet_event_gets_the_stored_packet() {
    let h = Height::new(2, 8);
    let found = Some(vec![stored(4, None), stored(5, None)]);
    assert_eq!(
        filter_map_pallet_event(
            IbcEvent::SendPacket { height: h, packet: bare_packet(4) },
            found.clone()
        ),
        Some(IbcEvent::SendPacket { height: h, packet: stored_packet(4) })
    );
    assert_eq!(
        filter_map_pallet_event(
            IbcEvent::ReceivePacket { height: h, packet: bare_packet(4) },
            found.clone()
        ),
        Some(IbcEvent::ReceivePacket { height: h, packet: stored_packet(4) })
    );
    assert_eq!(
        filter_map_pallet_event(
            IbcEvent::AcknowledgePacket { height: h, packet: bare_packet(4) },
            found.clone()
        ),
        Some(IbcEvent::AcknowledgePacket { height: h, packet: stored_packet(4) })
    );
    assert_eq!(
        filter_map_pallet_event(
            IbcEvent::TimeoutPacket { height: h, packet: bare_packet(4) },
            found.clone()
        ),
        Some(IbcEvent::TimeoutPacket { height: h, packet: stored_packet(4) })
    );
    assert_eq!(
        filter_map_pallet_event(
            IbcEvent::TimeoutOnClosePacket { height: h, packet: bare_packet(4) },
            found
        ),
        Some(IbcEvent::TimeoutOnClosePacket { height: h, packet: stored_packet(4) })
    );
}

#[test]
fn a_packet_event_without_a_stored_packet_is_dropped() {
    let h = Height::new(2, 8);
    for found in [None, Some(Vec::new())] {
        assert_eq!(
            filter_map_pallet_event(
                IbcEvent::SendPacket { height: h, packet: bare_packet(4) },
                found.clone()
            ),
            None
        );
        assert_eq!(
            filter_map_pallet_event(
                IbcEvent::ReceivePacket { height: h, packet: bare_packet(4) },
                found.clone()
            ),
            None
        );
        assert_eq!(
            filter_map_pallet_event(
                IbcEvent::WriteAcknowledgement {
                    height: h,
                    packet: bare_packet(4),
                    ack: vec![9]
                },
                found.clone()
            ),
            None
        );
        assert_eq!(
            filter_map_pallet_event(
                IbcEvent::TimeoutOnClosePacket { height: h, packet: bare_packet(4) },
                found
            ),
            None
        );
    }
}

#[test]
fn an_acknowledgement_event_gets_the_stored_acknowledgement() {
    let h = Height::new(2, 8);
    assert_eq!(
        filter_map_pallet_event(
            IbcEvent::WriteAcknowledgement { height: h, packet: bare_packet(4), ack: Vec::new() },
            Some(vec![stored(4, Some(vec![7, 7]))])
        ),
        Some(IbcEvent::WriteAcknowledgement {
            height: h,
            packet: stored_packet(4),
            ack: vec![7, 7]
        })
    );
}

#[test]
fn an_acknowledgement_event_without_a_stored_acknowledgement_is_dropped() {
    let h = Height::new(2, 8);
    assert_eq!(
        filter_map_pallet_event(
            IbcEvent::WriteAcknowledgement { height: h, packet: bare_packet(4), ack: vec![1] },
            Some(vec![stored(4, None), stored(4, Some(vec![7]))])
        ),
        None
    );
}
