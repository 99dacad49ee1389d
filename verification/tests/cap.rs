use rustypipes::cap::{
    decode_assignment, decode_subscribe, encode_assignment, encode_subscribe, encode_unsubscribe,
    get_cap_message_type,
};
use rustypipes::{OctopipesCapError, OctopipesCapMessage, OctopipesError};

#[test]
fn test_encode_subscribe_with_groups() {
    //Test subscribe payload encoding
    //We'll use two groups 'SUBSCRIBE' and 'SYSTEM'
    let payload: Vec<u8> =
        encode_subscribe(&vec![String::from("SUBSCRIBE"), String::from("SYSTEM")]);
    assert_eq!(
        payload.len(),
        19,
        "Payload len should be 19, but is {}",
        payload.len()
    );
    //Verify payload data
    assert_eq!(
        payload[0],
        OctopipesCapMessage::Subscription.to_u8(),
        "Payload at 0 should be {} but is {}",
        OctopipesCapMessage::Subscription.to_u8(),
        payload[0]
    );
    //Check group amount (2)
    assert_eq!(
        payload[1], 0x02,
        "Payload at 1 should be {} but is {}",
        0x02, payload[1]
    );
    //Group 1 size (9)
    assert_eq!(
        payload[2], 0x09,
        "Payload at 2 should be {} but is {}",
        0x09, payload[2]
    );
    //Group 1 content
    assert_eq!(
        payload[3] as char, 'S',
        "Payload at 3 should be {} but is {}",
        'S', payload[3] as char
    );
    assert_eq!(
        payload[4] as char, 'U',
        "Payload at 4 should be {} but is {}",
        'U', payload[4] as char
    );
    assert_eq!(
        payload[5] as char, 'B',
        "Payload at 5 should be {} but is {}",
        'B', payload[5] as char
    );
    assert_eq!(
        payload[6] as char, 'S',
        "Payload at 6 should be {} but is {}",
        'S', payload[6] as char
    );
    assert_eq!(
        payload[7] as char, 'C',
        "Payload at 7 should be {} but is {}",
        'C', payload[7] as char
    );
    assert_eq!(
        payload[8] as char, 'R',
        "Payload at 8 should be {} but is {}",
        'R', payload[8] as char
    );
    assert_eq!(
        payload[9] as char, 'I',
        "Payload at 9 should be {} but is {}",
        'I', payload[9] as char
    );
    assert_eq!(
        payload[10] as char, 'B',
        "Payload at 10 should be {} but is {}",
        'B', payload[10] as char
    );
    assert_eq!(
        payload[11] as char, 'E',
        "Payload at 11 should be {} but is {}",
        'E', payload[11] as char
    );
    //Group 2 size
    assert_eq!(
        payload[12], 0x06,
        "Payload at 12 should be {} but is {}",
        0x06, payload[12]
    );
    //Groups 2 content
    assert_eq!(
        payload[13] as char, 'S',
        "Payload at 13 should be {} but is {}",
        'S', payload[13] as char
    );
    assert_eq!(
        payload[14] as char, 'Y',
        "Payload at 14 should be {} but is {}",
        'Y', payload[14] as char
    );
    assert_eq!(
        payload[15] as char, 'S',
        "Payload at 15 should be {} but is {}",
        'S', payload[15] as char
    );
    assert_eq!(
        payload[16] as char, 'T',
        "Payload at 16 should be {} but is {}",
        'T', payload[16] as char
    );
    assert_eq!(
        payload[17] as char, 'E',
        "Payload at 17 should be {} but is {}",
        'E', payload[17] as char
    );
    assert_eq!(
        payload[18] as char, 'M',
        "Payload at 18 should be {} but is {}",
        'M', payload[18] as char
    );
}

#[test]
fn test_encode_subscribe_without_groups() {
    //Test subscribe payload encoding
    let payload: Vec<u8> = encode_subscribe(&vec![]);
    assert_eq!(
        payload.len(),
        2,
        "Payload len should be 2, but is {}",
        payload.len()
    );
    //Verify payload data
    assert_eq!(
        payload[0],
        OctopipesCapMessage::Subscription.to_u8(),
        "Payload at 0 should be {} but is {}",
        OctopipesCapMessage::Subscription.to_u8(),
        payload[0]
    );
    //Check group amount (0)
    assert_eq!(
        payload[1], 0x00,
        "Payload at 1 should be {} but is {}",
        0x00, payload[1]
    );
}

#[test]
fn test_encode_assignment_with_pipes() {
    //Test assignment payload encoding
    //We'll use TX pipe /tmp/pipe_tx and RX pipe /tmp/pipe_rx
    let payload: Vec<u8> = encode_assignment(
        OctopipesCapError::NoError,
        Some(String::from("/tmp/pipe_tx")),
        Some(String::from("/tmp/pipe_rx")),
    );
    assert_eq!(
        payload.len(),
        28,
        "Payload len should be 28, but is {}",
        payload.len()
    );
    //Verify payload data
    assert_eq!(
        payload[0],
        OctopipesCapMessage::Assignment.to_u8(),
        "Payload at 0 should be {} but is {}",
        OctopipesCapMessage::Assignment.to_u8(),
        payload[0]
    );
    //Check CAP error (0)
    assert_eq!(
        payload[1], 0x00,
        "Payload at 1 should be {} but is {}",
        0x00, payload[1]
    );
    //Pipe tx size (12)
    assert_eq!(
        payload[2], 0x0c,
        "Payload at 2 should be {} but is {}",
        0x0c, payload[2]
    );
    //pipe tx content
    let tx_expected = "/tmp/pipe_tx".as_bytes();
    for i in 0..12 {
        assert_eq!(
            payload[3 + i] as char,
            tx_expected[i] as char,
            "Payload at {} should be {} but is {}",
            3 + i,
            tx_expected[i] as char,
            payload[3 + i] as char
        );
    }
    //pipe rx size (12)
    assert_eq!(
        payload[15], 0x0c,
        "Payload at 12 should be {} but is {}",
        0x0c, payload[15]
    );
    //Pipe rx content
    let rx_expected = "/tmp/pipe_rx".as_bytes();
    for i in 0..12 {
        assert_eq!(
            payload[16 + i] as char,
            rx_expected[i] as char,
            "Payload at {} should be {} but is {}",
            16 + i,
            rx_expected[i] as char,
            payload[16 + i] as char
        );
    }
}

#[test]
fn test_encode_assignment_with_error() {
    //Test assignment payload encoding
    let payload: Vec<u8> = encode_assignment(OctopipesCapError::NameAlreadyTaken, None, None);
    assert_eq!(
        payload.len(),
        2,
        "Payload len should be 2, but is {}",
        payload.len()
    );
    //Verify payload data
    assert_eq!(
        payload[0],
        OctopipesCapMessage::Assignment.to_u8(),
        "Payload at 0 should be {} but is {}",
        OctopipesCapMessage::Assignment.to_u8(),
        payload[0]
    );
    //Check CAP error (NameAlreadyTaken => 0x01)
    assert_eq!(
        payload[1], 0x01,
        "Payload at 1 should be {} but is {}",
        0x01, payload[1]
    );
}

#[test]
fn test_encode_unsubscribe() {
    //Test unsubscribe payload encoding
    let payload: Vec<u8> = encode_unsubscribe();
    assert_eq!(
        payload.len(),
        1,
        "Payload len should be 1, but is {}",
        payload.len()
    );
    //Verify payload data
    assert_eq!(
        payload[0],
        OctopipesCapMessage::Unsubscription.to_u8(),
        "Payload at 0 should be {} but is {}",
        OctopipesCapMessage::Unsubscription.to_u8(),
        payload[0]
    );
}

#[test]
fn test_get_cap_message_type() {
    //Test subscribe
    let payload: Vec<u8> = encode_subscribe(&vec![String::from("SUBSCRIBE")]);
    assert_eq!(
        get_cap_message_type(&payload).unwrap(),
        OctopipesCapMessage::Subscription,
        "Subscribe message has wrong cap type: {:?}",
        get_cap_message_type(&payload).unwrap()
    );
    //Test assignment
    let payload: Vec<u8> = encode_assignment(
        OctopipesCapError::NoError,
        Some(String::from("/tmp/pipe_tx")),
        Some(String::from("/tmp/pipe_rx")),
    );
    assert_eq!(
        get_cap_message_type(&payload).unwrap(),
        OctopipesCapMessage::Assignment,
        "Assignment message has wrong cap type: {:?}",
        get_cap_message_type(&payload).unwrap()
    );
    //Test Unsubscribe
    let payload: Vec<u8> = encode_unsubscribe();
    assert_eq!(
        get_cap_message_type(&payload).unwrap(),
        OctopipesCapMessage::Unsubscription,
        "Unsubscribe message has wrong cap type: {:?}",
        get_cap_message_type(&payload).unwrap()
    );
}

#[test]
fn test_parse_subscribe() {
    //Create a subscribe payload to decode (two groups, SYS and HW)
    let payload: Vec<u8> = vec![
        0x01, 0x02, 0x03, 'S' as u8, 'Y' as u8, 'S' as u8, 0x02, 'H' as u8, 'W' as u8,
    ];
    match decode_subscribe(&payload) {
        Ok(groups) => {
            //Check groups
            assert_eq!(
                groups.len(),
                2,
                "There should be two groups; found {}",
                groups.len()
            );
            //Check group 0
            assert_eq!(
                groups[0], "SYS",
                "First group should be 'SYS' but is {}",
                groups[0]
            );
            //Check group 1
            assert_eq!(
                groups[1], "HW",
                "Second group should be 'HW' but is {}",
                groups[1]
            );
        }
        Err(error) => {
            panic!("Subscribe parsing failed: {}", error.to_string());
        }
    }
}

#[test]
fn test_parse_subscribe_nok() {
    //Create a subscribe payload to decode (two groups, but one is missing)
    let payload: Vec<u8> = vec![0x01, 0x02, 0x03, 'S' as u8, 'Y' as u8, 'S' as u8];
    match decode_subscribe(&payload) {
        Ok(..) => {
            panic!("Decode should have failed");
        }
        Err(error) => {
            assert_eq!(
                error,
                OctopipesError::BadPacket,
                "Subscribe NOK should have returned BAD PACKET, but returned {}",
                error.to_string()
            );
        }
    }
}

#[test]
fn test_parse_assignment() {
    //Create an assignment payload to decode (two pipes /tmp/pipe_tx, /tmp/pipe_rx)
    let payload: Vec<u8> = vec![
        0xff, 0x00, 0x0c, 0x2f, 0x74, 0x6d, 0x70, 0x2f, 0x70, 0x69, 0x70, 0x65, 0x5f, 0x74, 0x78,
        0x0c, 0x2f, 0x74, 0x6d, 0x70, 0x2f, 0x70, 0x69, 0x70, 0x65, 0x5f, 0x72, 0x78,
    ];
    match decode_assignment(&payload) {
        Ok((cap_error, pipe_tx, pipe_rx)) => {
            //Cap Error should be none
            assert_eq!(
                cap_error,
                OctopipesCapError::NoError,
                "CAP Error should be NoError, but is {}",
                cap_error.to_string()
            );
            //Pipe tx
            assert!(pipe_tx.is_some(), "Pipe TX shouldn't be None");
            let pipe_tx_str = pipe_tx.unwrap();
            assert_eq!(
                pipe_tx_str,
                String::from("/tmp/pipe_tx"),
                "Pipe tx should be /tmp/pipe_tx, but is {}",
                pipe_tx_str
            );
            //Pipe rx
            assert!(pipe_rx.is_some(), "Pipe RX shouldn't be None");
            let pipe_rx_str = pipe_rx.unwrap();
            assert_eq!(
                pipe_rx_str,
                String::from("/tmp/pipe_rx"),
                "Pipe rx should be /tmp/pipe_rx, but is {}",
                pipe_rx_str
            );
        }
        Err(..) => panic!("Assignment decode shouldn't have returned error"),
    }
}

#[test]
fn test_parse_assignment_with_cap_error() {
    //An assignment that refuses the subscription carries no paths
    let payload: Vec<u8> = vec![0xff, 0x01];
    match decode_assignment(&payload) {
        Ok((cap_error, pipe_tx, pipe_rx)) => {
            assert_eq!(cap_error, OctopipesCapError::NameAlreadyTaken);
            assert!(pipe_tx.is_none());
            assert!(pipe_rx.is_none());
        }
        Err(..) => panic!("Assignment decode shouldn't have returned error"),
    }
}

#[test]
fn test_parse_assignment_bad() {
    //Wrong type byte
    assert_eq!(
        decode_assignment(&vec![0x01, 0x00]),
        Err(OctopipesError::BadPacket)
    );
    //Unknown error byte
    assert_eq!(
        decode_assignment(&vec![0xff, 0x09]),
        Err(OctopipesError::BadPacket)
    );
    //Truncated paths
    assert_eq!(
        decode_assignment(&vec![0xff, 0x00, 0x0c, 0x2f]),
        Err(OctopipesError::BadPacket)
    );
}

#[test]
fn test_cap_round_trip() {
    //Groups of every small shape survive the encode/decode round trip
    let groups = vec![
        String::from(""),
        String::from("A"),
        String::from("BROADCAST"),
    ];
    let payload = encode_subscribe(&groups);
    let decoded = decode_subscribe(&payload).expect("round trip should decode");
    assert_eq!(decoded, groups);
    //Assignment round trip
    let payload = encode_assignment(
        OctopipesCapError::NoError,
        Some(String::from("/tmp/a_tx.fifo")),
        Some(String::from("/tmp/a_rx.fifo")),
    );
    let (err, tx, rx) = decode_assignment(&payload).expect("assignment should decode");
    assert_eq!(err, OctopipesCapError::NoError);
    assert_eq!(tx.unwrap(), "/tmp/a_tx.fifo");
    assert_eq!(rx.unwrap(), "/tmp/a_rx.fifo");
    //Unsubscribe round trip
    let payload = encode_unsubscribe();
    assert_eq!(
        rustypipes::cap::decode_unsubscribe(&payload).unwrap(),
        OctopipesCapMessage::Unsubscription
    );
}
