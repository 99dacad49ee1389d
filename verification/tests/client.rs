//! The client engine's state machine and frames: the subscribe handshake from
//! the client's side, sending, acknowledgements, and the lifecycle states.

use rustypipes::cap::{decode_subscribe, encode_assignment, get_cap_message_type};
use rustypipes::client::OctopipesClient;
use rustypipes::serializer::{decode_message, encode_message};
use rustypipes::{
    OctopipesCapError, OctopipesCapMessage, OctopipesError, OctopipesMessage, OctopipesOptions,
    OctopipesProtocolVersion, OctopipesState,
};

fn new_client(id: &str) -> OctopipesClient {
    OctopipesClient::new(
        String::from(id),
        String::from("/tmp/cap.fifo"),
        OctopipesProtocolVersion::Version1,
    )
}

/// The Assignment frame a broker would write for this client.
fn assignment_frame(id: &str, error: OctopipesCapError, tx: Option<&str>, rx: Option<&str>) -> Vec<u8> {
    let payload = encode_assignment(
        error,
        tx.map(|p| String::from(p)),
        rx.map(|p| String::from(p)),
    );
    let message = OctopipesMessage::new(
        &OctopipesProtocolVersion::Version1,
        &None,
        &Some(String::from(id)),
        60,
        OctopipesOptions::empty(),
        payload,
    );
    encode_message(&message).expect("the assignment should encode")
}

#[test]
fn subscription_frame_carries_groups() {
    let client = new_client("myclient");
    let frame = client
        .subscription_frame(&vec![String::from("A"), String::from("B")])
        .expect("the subscription should encode");
    let message = decode_message(frame).expect("the frame should decode");
    assert_eq!(message.get_origin().unwrap(), "myclient");
    assert!(message.get_remote().is_none());
    assert_eq!(message.get_ttl(), 60);
    assert_eq!(
        get_cap_message_type(message.get_data()).unwrap(),
        OctopipesCapMessage::Subscription
    );
    let groups = decode_subscribe(message.get_data()).unwrap();
    assert_eq!(groups, vec![String::from("A"), String::from("B")]);
}

#[test]
fn subscription_only_when_unsubscribed() {
    let mut client = new_client("c");
    client.state = OctopipesState::Subscribed;
    assert_eq!(
        client.subscription_frame(&vec![]),
        Err(OctopipesError::NotUnsubscribed)
    );
    client.state = OctopipesState::Unsubscribed;
    assert!(client.subscription_frame(&vec![]).is_ok());
}

#[test]
fn handle_assignment_success() {
    let mut client = new_client("c1");
    let reply = assignment_frame(
        "c1",
        OctopipesCapError::NoError,
        Some("/tmp/clients/c1_tx.fifo"),
        Some("/tmp/clients/c1_rx.fifo"),
    );
    let cap_error = client.handle_assignment(reply).expect("the reply should parse");
    assert_eq!(cap_error, OctopipesCapError::NoError);
    assert_eq!(client.state, OctopipesState::Subscribed);
    assert_eq!(client.tx_pipe.as_deref(), Some("/tmp/clients/c1_tx.fifo"));
    assert_eq!(client.rx_pipe.as_deref(), Some("/tmp/clients/c1_rx.fifo"));
}

#[test]
fn handle_assignment_refusal() {
    let mut client = new_client("dup");
    let reply = assignment_frame("dup", OctopipesCapError::NameAlreadyTaken, None, None);
    let cap_error = client.handle_assignment(reply).expect("the reply should parse");
    assert_eq!(cap_error, OctopipesCapError::NameAlreadyTaken);
    assert_eq!(client.state, OctopipesState::Initialized);
    assert!(client.tx_pipe.is_none());
    assert!(client.rx_pipe.is_none());
}

#[test]
fn handle_assignment_wrong_type() {
    // a reply that is not an Assignment earns BadPacket
    let mut client = new_client("c1");
    let message = OctopipesMessage::new(
        &OctopipesProtocolVersion::Version1,
        &None,
        &Some(String::from("c1")),
        60,
        OctopipesOptions::empty(),
        rustypipes::cap::encode_unsubscribe(),
    );
    let reply = encode_message(&message).unwrap();
    assert_eq!(
        client.handle_assignment(reply),
        Err(OctopipesError::BadPacket)
    );
    assert_eq!(client.state, OctopipesState::Initialized);
}

#[test]
fn loop_lifecycle() {
    let mut client = new_client("c1");
    // not subscribed yet
    assert_eq!(client.loop_start(), Err(OctopipesError::NotSubscribed));
    // subscribed with pipes assigned
    let reply = assignment_frame(
        "c1",
        OctopipesCapError::NoError,
        Some("/tmp/t.fifo"),
        Some("/tmp/r.fifo"),
    );
    client.handle_assignment(reply).unwrap();
    assert_eq!(client.loop_start(), Ok(()));
    assert_eq!(client.state, OctopipesState::Running);
    // starting twice is refused
    assert_eq!(client.loop_start(), Err(OctopipesError::ThreadAlreadyRunning));
    // stopping twice is harmless
    assert_eq!(client.loop_stop(), Ok(()));
    assert_eq!(client.state, OctopipesState::Stopped);
    assert_eq!(client.loop_stop(), Ok(()));
    assert_eq!(client.state, OctopipesState::Stopped);
}

#[test]
fn send_requires_subscription() {
    let client = new_client("c1");
    assert_eq!(
        client.send(&String::from("peer"), vec![1, 2, 3]),
        Err(OctopipesError::NotSubscribed)
    );
}

#[test]
fn send_builds_frame() {
    let mut client = new_client("sender");
    let reply = assignment_frame(
        "sender",
        OctopipesCapError::NoError,
        Some("/tmp/t.fifo"),
        Some("/tmp/r.fifo"),
    );
    client.handle_assignment(reply).unwrap();
    let frame = client
        .send_ex(
            &String::from("peer"),
            vec![0xAA, 0xBB],
            7,
            OctopipesOptions::rck(),
        )
        .expect("the send should encode");
    let message = decode_message(frame).expect("the frame should decode");
    assert_eq!(message.get_origin().unwrap(), "sender");
    assert_eq!(message.get_remote().unwrap(), "peer");
    assert_eq!(message.get_ttl(), 7);
    assert!(message.isset_option(OctopipesOptions::rck()));
    assert_eq!(message.get_data(), &vec![0xAA, 0xBB]);
}

#[test]
fn received_message_with_rck_earns_ack() {
    let mut client = new_client("receiver");
    let reply = assignment_frame(
        "receiver",
        OctopipesCapError::NoError,
        Some("/tmp/t.fifo"),
        Some("/tmp/r.fifo"),
    );
    client.handle_assignment(reply).unwrap();
    // a peer sends a message that requests an acknowledgement
    let incoming = OctopipesMessage::new(
        &OctopipesProtocolVersion::Version1,
        &Some(String::from("peer")),
        &Some(String::from("receiver")),
        9,
        OctopipesOptions::rck(),
        vec![42],
    );
    let frame = encode_message(&incoming).unwrap();
    let (received, ack) = client.handle_received(frame);
    let received = received.expect("the message should decode");
    assert_eq!(received.get_origin().unwrap(), "peer");
    assert_eq!(received.get_data(), &vec![42]);
    // the acknowledgement goes back to the peer with the ACK bit and no data
    let ack = decode_message(ack.expect("an acknowledgement is owed")).unwrap();
    assert_eq!(ack.get_origin().unwrap(), "receiver");
    assert_eq!(ack.get_remote().unwrap(), "peer");
    assert_eq!(ack.get_ttl(), 9);
    assert!(ack.isset_option(OctopipesOptions::ack()));
    assert!(ack.get_data().is_empty());
}

#[test]
fn received_message_without_rck_earns_no_ack() {
    let client = new_client("receiver");
    let incoming = OctopipesMessage::new(
        &OctopipesProtocolVersion::Version1,
        &Some(String::from("peer")),
        &Some(String::from("receiver")),
        9,
        OctopipesOptions::empty(),
        vec![1],
    );
    let frame = encode_message(&incoming).unwrap();
    let (received, ack) = client.handle_received(frame);
    assert!(received.is_ok());
    assert!(ack.is_none());
}

#[test]
fn received_garbage_reports_the_error() {
    let client = new_client("receiver");
    let (received, ack) = client.handle_received(vec![0x09, 0x09, 0x09]);
    match received {
        Ok(..) => panic!("garbage should not decode"),
        Err(error) => assert_eq!(error, OctopipesError::BadPacket),
    }
    assert!(ack.is_none());
}

#[test]
fn unsubscription_frame_and_state() {
    let mut client = new_client("c1");
    assert_eq!(
        client.unsubscription_frame(),
        Err(OctopipesError::NotSubscribed)
    );
    let reply = assignment_frame(
        "c1",
        OctopipesCapError::NoError,
        Some("/tmp/t.fifo"),
        Some("/tmp/r.fifo"),
    );
    client.handle_assignment(reply).unwrap();
    let frame = client.unsubscription_frame().expect("the frame should encode");
    let message = decode_message(frame).unwrap();
    assert_eq!(message.get_origin().unwrap(), "c1");
    assert_eq!(
        get_cap_message_type(message.get_data()).unwrap(),
        OctopipesCapMessage::Unsubscription
    );
    client.finish_unsubscribe();
    assert_eq!(client.state, OctopipesState::Unsubscribed);
    // a fresh subscription is allowed again
    assert!(client.subscription_frame(&vec![]).is_ok());
}
