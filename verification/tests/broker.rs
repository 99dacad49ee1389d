//! Scenarios that drive the broker's verified core: the subscribe handshake,
//! routing, duplicate ids, and shutdown. The pipe reads and writes that a
//! running broker would perform around these calls carry the same byte
//! vectors that these tests hand back and forth directly.

use rustypipes::cap::decode_assignment;
use rustypipes::client::OctopipesClient;
use rustypipes::serializer::decode_message;
use rustypipes::server::OctopipesServer;
use rustypipes::{
    OctopipesCapError, OctopipesCapMessage, OctopipesMessage, OctopipesOptions,
    OctopipesProtocolVersion, OctopipesServerError, OctopipesServerState,
};

fn new_running_server() -> OctopipesServer {
    let mut server = OctopipesServer::new(
        OctopipesProtocolVersion::Version1,
        String::from("/tmp/cap.fifo"),
        String::from("/tmp/clients"),
    );
    server.start_cap_listener().expect("listener should start");
    server
}

/// Subscribes `id` to `groups` and returns the broker's reply frame.
fn subscribe(server: &mut OctopipesServer, id: &str, groups: Vec<String>) -> (Result<OctopipesCapMessage, OctopipesServerError>, Vec<u8>) {
    let client = OctopipesClient::new(
        String::from(id),
        String::from("/tmp/cap.fifo"),
        OctopipesProtocolVersion::Version1,
    );
    let frame = client
        .subscription_frame(&groups)
        .expect("subscription frame should encode");
    let request = decode_message(frame).expect("broker should decode the subscription");
    let (result, reply) = server.manage_cap_message(&request, 0);
    (result, reply.expect("a subscribe earns an Assignment reply"))
}

#[test]
fn subscribe_handshake() {
    // client c1 subscribes to BROADCAST; the Assignment carries NoError and
    // the two allocated pipe paths
    let mut server = new_running_server();
    let (result, reply) = subscribe(&mut server, "c1", vec![String::from("BROADCAST")]);
    assert_eq!(result, Ok(OctopipesCapMessage::Subscription));
    let reply_message = decode_message(reply).expect("the reply should decode");
    assert_eq!(reply_message.get_remote().unwrap(), "c1");
    let (cap_error, tx, rx) =
        decode_assignment(reply_message.get_data()).expect("the reply should be an Assignment");
    assert_eq!(cap_error, OctopipesCapError::NoError);
    assert_eq!(tx.unwrap(), "/tmp/clients/c1_tx.fifo");
    assert_eq!(rx.unwrap(), "/tmp/clients/c1_rx.fifo");
    // the worker is registered with the implicit self-address group
    let groups = server.get_subscriptions(String::from("c1")).unwrap();
    assert_eq!(groups, vec![String::from("BROADCAST"), String::from("c1")]);
}

#[test]
fn routing() {
    // cA subscribes to BROADCAST, cB subscribes to nothing; cB sends HELLO to
    // remote cA; exactly cA receives it, with origin cB and the payload bytes
    let mut server = new_running_server();
    let (ra, _) = subscribe(&mut server, "cA", vec![String::from("BROADCAST")]);
    let (rb, _) = subscribe(&mut server, "cB", vec![]);
    assert_eq!(ra, Ok(OctopipesCapMessage::Subscription));
    assert_eq!(rb, Ok(OctopipesCapMessage::Subscription));
    let hello = OctopipesMessage::new(
        &OctopipesProtocolVersion::Version1,
        &Some(String::from("cB")),
        &Some(String::from("cA")),
        60,
        OctopipesOptions::empty(),
        vec!['H' as u8, 'E' as u8, 'L' as u8, 'L' as u8, 'O' as u8],
    );
    let orders = server.dispatch_message(&hello).expect("routing should succeed");
    assert_eq!(orders.len(), 1, "exactly one worker should receive the message");
    assert_eq!(orders[0].client_id, "cA");
    assert_eq!(orders[0].pipe_write, "/tmp/clients/cA_rx.fifo");
    assert_eq!(orders[0].timeout_millis, 60000);
    let delivered = decode_message(orders[0].data.clone()).expect("the frame should decode");
    assert_eq!(delivered.get_origin().unwrap(), "cB");
    assert_eq!(delivered.get_data(), &vec![72u8, 69, 76, 76, 79]);
}

#[test]
fn routing_fan_out() {
    // two workers subscribed to the same group each receive the message once
    let mut server = new_running_server();
    subscribe(&mut server, "w1", vec![String::from("G")]);
    subscribe(&mut server, "w2", vec![String::from("G")]);
    subscribe(&mut server, "other", vec![]);
    let message = OctopipesMessage::new(
        &OctopipesProtocolVersion::Version1,
        &Some(String::from("s")),
        &Some(String::from("G")),
        5,
        OctopipesOptions::empty(),
        vec![1, 2, 3],
    );
    let orders = server.dispatch_message(&message).expect("routing should succeed");
    let recipients: Vec<String> = orders.iter().map(|o| o.client_id.clone()).collect();
    assert_eq!(recipients, vec![String::from("w1"), String::from("w2")]);
}

#[test]
fn routing_no_recipient() {
    // a message without a remote cannot be routed
    let mut server = new_running_server();
    subscribe(&mut server, "w1", vec![]);
    let message = OctopipesMessage::new(
        &OctopipesProtocolVersion::Version1,
        &Some(String::from("s")),
        &None,
        5,
        OctopipesOptions::empty(),
        vec![],
    );
    assert!(matches!(
        server.dispatch_message(&message),
        Err(OctopipesServerError::NoRecipient)
    ));
}

#[test]
fn duplicate_id() {
    // a second subscribe with the id dup earns NameAlreadyTaken and leaves
    // the first worker alone
    let mut server = new_running_server();
    let (first, _) = subscribe(&mut server, "dup", vec![String::from("A")]);
    assert_eq!(first, Ok(OctopipesCapMessage::Subscription));
    let (second, reply) = subscribe(&mut server, "dup", vec![String::from("B")]);
    assert_eq!(second, Err(OctopipesServerError::WorkerExists));
    let reply_message = decode_message(reply).expect("the refusal should decode");
    let (cap_error, tx, rx) =
        decode_assignment(reply_message.get_data()).expect("the refusal is an Assignment");
    assert_eq!(cap_error, OctopipesCapError::NameAlreadyTaken);
    assert!(tx.is_none());
    assert!(rx.is_none());
    assert_eq!(server.get_clients().len(), 1, "the worker count stays at 1");
    let groups = server.get_subscriptions(String::from("dup")).unwrap();
    assert_eq!(groups, vec![String::from("A"), String::from("dup")]);
}

#[test]
fn unsubscription_removes_worker() {
    let mut server = new_running_server();
    subscribe(&mut server, "c1", vec![]);
    subscribe(&mut server, "c2", vec![]);
    // c1 unsubscribes through the common access pipe
    let frame = OctopipesMessage::new(
        &OctopipesProtocolVersion::Version1,
        &Some(String::from("c1")),
        &None,
        60,
        OctopipesOptions::empty(),
        rustypipes::cap::encode_unsubscribe(),
    );
    let (result, reply) = server.manage_cap_message(&frame, 1);
    assert_eq!(result, Ok(OctopipesCapMessage::Unsubscription));
    assert!(reply.is_none());
    assert_eq!(server.get_clients(), vec![String::from("c2")]);
    // unsubscribing an unknown id is refused
    let stranger = OctopipesMessage::new(
        &OctopipesProtocolVersion::Version1,
        &Some(String::from("nobody")),
        &None,
        60,
        OctopipesOptions::empty(),
        rustypipes::cap::encode_unsubscribe(),
    );
    let (result, _) = server.manage_cap_message(&stranger, 2);
    assert_eq!(result, Err(OctopipesServerError::WorkerNotFound));
}

#[test]
fn graceful_shutdown() {
    // start broker, subscribe two clients, unsubscribe one, stop broker:
    // the registry is empty and the listener stopped, so the runtime unlinks
    // every FIFO it created
    let mut server = new_running_server();
    subscribe(&mut server, "a", vec![String::from("BROADCAST")]);
    subscribe(&mut server, "b", vec![]);
    assert_eq!(server.get_clients().len(), 2);
    let unsub = OctopipesMessage::new(
        &OctopipesProtocolVersion::Version1,
        &Some(String::from("a")),
        &None,
        60,
        OctopipesOptions::empty(),
        rustypipes::cap::encode_unsubscribe(),
    );
    let (result, _) = server.manage_cap_message(&unsub, 3);
    assert_eq!(result, Ok(OctopipesCapMessage::Unsubscription));
    assert_eq!(server.get_clients().len(), 1);
    server.stop_server().expect("shutdown should succeed");
    assert_eq!(server.get_clients().len(), 0);
    assert_eq!(server.state, OctopipesServerState::Stopped);
    // stopping again changes nothing
    server.stop_server().expect("shutdown is idempotent");
    assert_eq!(server.state, OctopipesServerState::Stopped);
}

#[test]
fn cap_message_without_origin() {
    let mut server = new_running_server();
    let message = OctopipesMessage::new(
        &OctopipesProtocolVersion::Version1,
        &None,
        &None,
        60,
        OctopipesOptions::empty(),
        rustypipes::cap::encode_unsubscribe(),
    );
    let (result, reply) = server.manage_cap_message(&message, 0);
    assert_eq!(result, Err(OctopipesServerError::NoRecipient));
    assert!(reply.is_none());
}

#[test]
fn cap_message_unknown_type() {
    let mut server = new_running_server();
    let message = OctopipesMessage::new(
        &OctopipesProtocolVersion::Version1,
        &Some(String::from("c")),
        &None,
        60,
        OctopipesOptions::empty(),
        vec![0x77],
    );
    let (result, reply) = server.manage_cap_message(&message, 0);
    assert_eq!(result, Err(OctopipesServerError::BadPacket));
    assert!(reply.is_none());
}

#[test]
fn subscribe_before_start() {
    // subscriptions reaching a broker whose listener is not running are
    // refused with a file-system Assignment
    let mut server = OctopipesServer::new(
        OctopipesProtocolVersion::Version1,
        String::from("/tmp/cap.fifo"),
        String::from("/tmp/clients"),
    );
    let client = OctopipesClient::new(
        String::from("early"),
        String::from("/tmp/cap.fifo"),
        OctopipesProtocolVersion::Version1,
    );
    let frame = client.subscription_frame(&vec![]).unwrap();
    let request = decode_message(frame).unwrap();
    let (result, reply) = server.manage_cap_message(&request, 0);
    assert_eq!(result, Err(OctopipesServerError::Uninitialized));
    let reply_message = decode_message(reply.unwrap()).unwrap();
    let (cap_error, _, _) = decode_assignment(reply_message.get_data()).unwrap();
    assert_eq!(cap_error, OctopipesCapError::FileSystemError);
}

#[test]
fn worker_queries() {
    let mut server = new_running_server();
    subscribe(&mut server, "q", vec![String::from("X")]);
    assert!(server.is_subscribed(String::from("q")).is_some());
    assert!(server.is_subscribed(String::from("nope")).is_none());
    let (pipe_read, pipe_write) = server
        .get_worker_pipes(&String::from("q"))
        .expect("the worker's pipes are recorded");
    assert_eq!(pipe_read, "/tmp/clients/q_tx.fifo");
    assert_eq!(pipe_write, "/tmp/clients/q_rx.fifo");
    let matched = server.match_subscription(&String::from("X"));
    assert_eq!(matched, vec![0]);
    assert!(server.match_subscription(&String::from("Y")).is_empty());
}
