use aleph_core::network::{
    protocol_of_name, Action, Address, ConnectionCommand, DataCommand, Event, PeerId, Protocol,
};
use aleph_core::router::ProtocolRouter;
use aleph_core::service::Service;

fn generic_name() -> String {
    Protocol::Generic.name()
}

fn validator_name() -> String {
    Protocol::Validator.name()
}

#[test]
fn protocol_names_are_recognized() {
    assert_eq!(Protocol::Generic.name(), "/cardinals/aleph/1".to_string());
    assert_eq!(
        Protocol::Validator.name(),
        "/cardinals/aleph_validator/1".to_string()
    );
    assert_eq!(protocol_of_name(&generic_name()), Some(Protocol::Generic));
    assert_eq!(
        protocol_of_name(&validator_name()),
        Some(Protocol::Validator)
    );
    assert_eq!(
        protocol_of_name(&"INCORRECT/PROTOCOL/NAME".to_string()),
        None
    );
}

#[test]
fn sync_connected_reserves_the_peer() {
    let mut service = Service::new();
    let peer = PeerId(7);
    let actions = service.handle_network_event(Event::SyncConnected { remote: peer });
    assert_eq!(
        actions,
        vec![Action::AddReservedPeer { peer, protocol: Protocol::Generic }]
    );
}

#[test]
fn sync_disconnected_unreserves_the_peer() {
    let mut service = Service::new();
    let peer = PeerId(7);
    let actions = service.handle_network_event(Event::SyncDisconnected { remote: peer });
    assert_eq!(
        actions,
        vec![Action::RemoveReserved { peers: vec![peer], protocol: Protocol::Generic }]
    );
}

#[test]
fn broadcast_reaches_every_generic_peer_once() {
    let mut service = Service::new();
    let peers = [PeerId(1), PeerId(2), PeerId(3)];
    for (i, peer) in peers.iter().enumerate() {
        let actions = service.handle_network_event(Event::NotificationStreamOpened {
            remote: *peer,
            protocol: generic_name(),
        });
        assert_eq!(
            actions,
            vec![Action::SpawnPeerSender {
                peer: *peer,
                protocol: Protocol::Generic,
                channel: i as u64,
            }]
        );
    }

    let payload = vec![1u8, 2, 3];
    let actions = service.on_user_command(payload.clone(), DataCommand::Broadcast);
    assert_eq!(actions.len(), 3);
    for (i, peer) in peers.iter().enumerate() {
        assert_eq!(
            actions[i],
            Action::Enqueue {
                peer: *peer,
                protocol: Protocol::Generic,
                channel: i as u64,
                data: payload.clone(),
            }
        );
    }
}

#[test]
fn closed_stream_leaves_later_broadcasts() {
    let mut service = Service::new();
    let kept = PeerId(1);
    let dropped = PeerId(2);
    for peer in [kept, dropped] {
        service.handle_network_event(Event::NotificationStreamOpened {
            remote: peer,
            protocol: generic_name(),
        });
    }
    let actions = service.handle_network_event(Event::NotificationStreamClosed {
        remote: dropped,
        protocol: generic_name(),
    });
    assert!(actions.is_empty());

    let payload = vec![9u8];
    let actions = service.on_user_command(payload.clone(), DataCommand::Broadcast);
    assert_eq!(
        actions,
        vec![Action::Enqueue {
            peer: kept,
            protocol: Protocol::Generic,
            channel: 0,
            data: payload,
        }]
    );
}

#[test]
fn closing_one_protocol_keeps_the_other() {
    let mut service = Service::new();
    let peer = PeerId(5);
    service.handle_network_event(Event::NotificationStreamOpened {
        remote: peer,
        protocol: generic_name(),
    });
    service.handle_network_event(Event::NotificationStreamOpened {
        remote: peer,
        protocol: validator_name(),
    });
    service.handle_network_event(Event::NotificationStreamClosed {
        remote: peer,
        protocol: generic_name(),
    });

    let payload = vec![4u8];
    assert!(service
        .on_user_command(payload.clone(), DataCommand::Broadcast)
        .is_empty());
    let actions =
        service.on_user_command(payload.clone(), DataCommand::SendTo(peer, Protocol::Validator));
    assert_eq!(
        actions,
        vec![Action::Enqueue {
            peer,
            protocol: Protocol::Validator,
            channel: 1,
            data: payload,
        }]
    );
}

#[test]
fn send_to_unconnected_peer_is_swallowed() {
    let service = Service::new();
    let actions = service.on_user_command(
        vec![1u8],
        DataCommand::SendTo(PeerId(42), Protocol::Validator),
    );
    assert!(actions.is_empty());
}

#[test]
fn unknown_protocol_stream_is_ignored() {
    let mut service = Service::new();
    let peer = PeerId(3);
    let actions = service.handle_network_event(Event::NotificationStreamOpened {
        remote: peer,
        protocol: "INCORRECT/PROTOCOL/NAME".to_string(),
    });
    assert!(actions.is_empty());
    assert!(service
        .on_user_command(vec![1u8], DataCommand::Broadcast)
        .is_empty());
}

#[test]
fn recognized_notifications_are_decoded_and_forwarded() {
    let mut service = Service::new();
    let message = vec![1u8, 2, 3];
    // the SCALE encoding of [1, 2, 3]: a compact length prefix, then the bytes
    let encoded = vec![12u8, 1, 2, 3];
    let incorrect = vec![12u8, 4, 5, 6];
    let actions = service.handle_network_event(Event::NotificationsReceived {
        messages: vec![
            ("INCORRECT/PROTOCOL/NAME".to_string(), incorrect),
            (generic_name(), encoded),
        ],
    });
    assert_eq!(actions, vec![Action::ForwardToUser { data: message }]);
}

#[test]
fn undecodable_notification_is_dropped() {
    let mut service = Service::new();
    // a compact length prefix promising more bytes than follow
    let truncated = vec![40u8, 1];
    let actions = service.handle_network_event(Event::NotificationsReceived {
        messages: vec![(generic_name(), truncated)],
    });
    assert!(actions.is_empty());
}

#[test]
fn manager_commands_adjust_the_validator_reserved_set() {
    let service = Service::new();
    let address = Address(vec![1u8, 2, 3]);
    let action =
        service.on_manager_command(ConnectionCommand::AddReserved(vec![address.clone()]));
    assert_eq!(
        action,
        Action::AddReservedAddresses {
            addresses: vec![address],
            protocol: Protocol::Validator,
        }
    );

    let action = service.on_manager_command(ConnectionCommand::DelReserved(vec![PeerId(9)]));
    assert_eq!(
        action,
        Action::RemoveReserved { peers: vec![PeerId(9)], protocol: Protocol::Validator }
    );
}

#[test]
fn reopened_stream_gets_a_fresh_channel() {
    let mut service = Service::new();
    let peer = PeerId(1);
    service.handle_network_event(Event::NotificationStreamOpened {
        remote: peer,
        protocol: generic_name(),
    });
    let actions = service.handle_network_event(Event::NotificationStreamOpened {
        remote: peer,
        protocol: generic_name(),
    });
    assert_eq!(
        actions,
        vec![Action::SpawnPeerSender { peer, protocol: Protocol::Generic, channel: 1 }]
    );
    let payload = vec![8u8];
    let actions = service.on_user_command(payload.clone(), DataCommand::Broadcast);
    assert_eq!(
        actions,
        vec![Action::Enqueue {
            peer,
            protocol: Protocol::Generic,
            channel: 1,
            data: payload,
        }]
    );
}

#[test]
fn router_encodes_payloads() {
    let router = ProtocolRouter::new(PeerId(1), Protocol::Validator);
    assert_eq!(router.encode_payload(&vec![1u8, 2, 3]), vec![12u8, 1, 2, 3]);
    assert_eq!(router.encode_payload(&Vec::new()), vec![0u8]);
}

#[test]
fn router_recreates_sender_after_send_failure() {
    let mut router = ProtocolRouter::new(PeerId(1), Protocol::Validator);
    assert!(!router.has_sender());

    // first payload: create a sender, then the send fails
    router.on_sender_created(true);
    assert!(router.has_sender());
    router.on_send_result(false);
    assert!(!router.has_sender());

    // second payload: the sender is recreated and the send goes through
    router.on_sender_created(true);
    assert!(router.has_sender());
    router.on_send_result(true);
    assert!(router.has_sender());
}

#[test]
fn router_drops_payload_when_sender_cannot_be_created() {
    let mut router = ProtocolRouter::new(PeerId(1), Protocol::Generic);
    router.on_sender_created(false);
    assert!(!router.has_sender());
    // the task carries on: the next payload may succeed
    router.on_sender_created(true);
    assert!(router.has_sender());
}
