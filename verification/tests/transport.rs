use pirates::error::{into_rpc_result_transport, RpcError, TransportError};
use pirates::hello::HelloWorldRpcName;
use pirates::framing::{receive_step, ReceiveStep, READ_BUFFER_SIZE};
use pirates::transport::{
    take_fields, CannedTestingTransport, InternalTransport, Transport, TransportConfig,
    TransportPackage, TransportPackageOwned,
};
use pirates::ToFromBytes;

#[test]
fn transport_package_round_trip() {
    let name = HelloWorldRpcName::HelloWorld;
    let query = String::from("Foo");

    let transport_config = TransportConfig::Pickle;

    let name_bytes = transport_config.serialize_name(&name).unwrap();
    let query_bytes = transport_config.serialize(&query).unwrap();

    let package = TransportPackage { name_bytes: &name_bytes, query_bytes: &query_bytes };

    let package_bytes = package.to_bytes(&transport_config).unwrap();

    let package2: TransportPackageOwned =
        TransportPackageOwned::of_bytes(&package_bytes, &transport_config).unwrap();

    let name2: HelloWorldRpcName = transport_config.deserialize_name(&package2.name_bytes).unwrap();
    let query2: String = transport_config.deserialize(&package2.query_bytes).unwrap();

    assert_eq!(name, name2);
    assert_eq!(query, query2);
}

#[test]
fn package_has_the_pickle_form_of_a_record() {
    let package = TransportPackage { name_bytes: &[1], query_bytes: &[2, 3] };
    let bytes = package.to_bytes(&TransportConfig::Pickle).unwrap();
    let mut expected = vec![0x80, 0x03, b'}', b'(', b'X', 10, 0, 0, 0];
    expected.extend_from_slice(b"name_bytes");
    expected.extend_from_slice(&[b']', b'(', b'K', 1, b'e', b'X', 11, 0, 0, 0]);
    expected.extend_from_slice(b"query_bytes");
    expected.extend_from_slice(&[b']', b'(', b'K', 2, b'K', 3, b'e', b'u', b'.']);
    assert_eq!(bytes, expected);
}

#[test]
fn package_with_empty_fields_round_trips() {
    let package = TransportPackage { name_bytes: &[], query_bytes: &[] };
    let bytes = package.to_bytes(&TransportConfig::Pickle).unwrap();
    let back = TransportPackageOwned::of_bytes(&bytes, &TransportConfig::Pickle).unwrap();
    assert_eq!(back.name_bytes, Vec::<u8>::new());
    assert_eq!(back.query_bytes, Vec::<u8>::new());
}

#[test]
fn name_travels_as_its_text() {
    let config = TransportConfig::Pickle;
    let bytes = config.serialize_name(&HelloWorldRpcName::GetI).unwrap();
    assert_eq!(bytes, String::from("GetI").to_bytes().unwrap());
    let name: HelloWorldRpcName = config.deserialize_name(&bytes).unwrap();
    assert_eq!(name, HelloWorldRpcName::GetI);
}

#[test]
fn unknown_name_is_a_parse_error() {
    let config = TransportConfig::Pickle;
    let bytes = String::from("NoSuchRpc").to_bytes().unwrap();
    assert!(matches!(
        config.deserialize_name::<HelloWorldRpcName>(&bytes),
        Err(RpcError::ParseError(_))
    ));
    let number = 3usize.to_bytes().unwrap();
    assert!(matches!(
        config.deserialize_name::<HelloWorldRpcName>(&number),
        Err(RpcError::ParseError(_))
    ));
}

#[test]
fn record_that_lacks_a_field_is_no_package() {
    let config = TransportConfig::Pickle;
    let mut only_name = std::collections::BTreeMap::new();
    only_name.insert("name_bytes", vec![1u8]);
    let bytes = serde_pickle::to_vec(&only_name, serde_pickle::SerOptions::new()).unwrap();
    assert!(matches!(TransportPackageOwned::of_bytes(&bytes, &config), Err(RpcError::ParseError(_))));
    let mut only_query = std::collections::BTreeMap::new();
    only_query.insert("query_bytes", vec![1u8]);
    let bytes = serde_pickle::to_vec(&only_query, serde_pickle::SerOptions::new()).unwrap();
    assert!(matches!(TransportPackageOwned::of_bytes(&bytes, &config), Err(RpcError::ParseError(_))));
    let text = String::from("Foo").to_bytes().unwrap();
    assert!(matches!(TransportPackageOwned::of_bytes(&text, &config), Err(RpcError::ParseError(_))));
}

#[test]
fn fields_are_taken_by_key() {
    let fields = vec![
        (String::from("extra"), vec![9u8]),
        (String::from("name_bytes"), vec![1u8]),
        (String::from("query_bytes"), vec![2u8]),
        (String::from("name_bytes"), vec![7u8]),
    ];
    assert_eq!(take_fields(fields), (Some(vec![1u8]), Some(vec![2u8])));
    assert_eq!(take_fields(Vec::new()), (None, None));
    assert_eq!(take_fields(vec![(String::from("query_bytes"), vec![])]), (None, Some(vec![])));
}

#[test]
fn frame_is_the_package_of_the_encoded_name() {
    let config = TransportConfig::Pickle;
    let query_bytes = String::from("foo").to_bytes().unwrap();
    let frame = config.frame_query(&query_bytes, &HelloWorldRpcName::HelloWorld).unwrap();
    let name_bytes = String::from("HelloWorld").to_bytes().unwrap();
    let package = TransportPackage { name_bytes: &name_bytes, query_bytes: &query_bytes };
    assert_eq!(frame, package.to_bytes(&config).unwrap());
    let read = config.read_query::<HelloWorldRpcName>(Ok(frame)).unwrap();
    assert_eq!(read.name, HelloWorldRpcName::HelloWorld);
    assert_eq!(read.query_bytes, query_bytes);
}

#[test]
fn read_query_hands_a_channel_failure_on() {
    let config = TransportConfig::Pickle;
    let r = config.read_query::<HelloWorldRpcName>(Err(TransportError::ReceiveError(String::from("gone"))));
    match r {
        Err(RpcError::TransportError(TransportError::ReceiveError(detail))) => assert_eq!(detail, "gone"),
        _ => panic!("a failure of the channel was expected"),
    }
}

#[test]
fn read_query_refuses_what_is_no_frame() {
    let config = TransportConfig::Pickle;
    let r = config.read_query::<HelloWorldRpcName>(Ok(vec![1, 2, 3]));
    assert!(matches!(r, Err(RpcError::ParseError(_))));
    let query_bytes = String::from("foo").to_bytes().unwrap();
    let name_bytes = String::from("NoSuchRpc").to_bytes().unwrap();
    let package = TransportPackage { name_bytes: &name_bytes, query_bytes: &query_bytes };
    let frame = package.to_bytes(&config).unwrap();
    assert!(matches!(config.read_query::<HelloWorldRpcName>(Ok(frame)), Err(RpcError::ParseError(_))));
}

#[test]
fn canned_transport_answers_with_its_text() {
    let mut canned = CannedTestingTransport { always_respond_with: String::from("Foo-Bar"), receive_times: 2 };
    assert!(canned.send(&[1, 2, 3]).is_ok());
    let expected = String::from("Foo-Bar").to_bytes().unwrap();
    assert_eq!(canned.send_and_wait_for_response(&[1]).unwrap(), expected);
    assert_eq!(canned.receive_times, 2);
    assert_eq!(canned.receive().unwrap(), expected);
    assert_eq!(canned.receive_times, 1);
    assert_eq!(canned.receive().unwrap(), expected);
    assert_eq!(canned.receive_times, 0);
    match canned.receive() {
        Err(TransportError::ReceiveError(detail)) => assert_eq!(detail, "Run out of receive count"),
        _ => panic!("the third receive should fail"),
    }
    assert_eq!(canned.receive_times, 0);
}

#[test]
fn transport_sends_the_frame_and_hands_the_reply_on() {
    let canned = CannedTestingTransport { always_respond_with: String::from("Foo-Bar"), receive_times: 0 };
    let mut transport: Transport<CannedTestingTransport, HelloWorldRpcName> =
        Transport::new(canned, TransportConfig::default());
    let reply = transport.send_query(&[1, 2], &HelloWorldRpcName::HelloWorld).unwrap();
    assert_eq!(reply, String::from("Foo-Bar").to_bytes().unwrap());
    assert!(transport.respond(&[1, 2]).is_ok());
    match transport.receive_query() {
        Err(RpcError::TransportError(TransportError::ReceiveError(detail))) => {
            assert_eq!(detail, "Run out of receive count")
        }
        _ => panic!("a failure of the channel was expected"),
    }
}

#[test]
fn transport_refuses_a_reply_that_is_no_frame() {
    let canned = CannedTestingTransport { always_respond_with: String::from("Foo-Bar"), receive_times: 1 };
    let mut transport: Transport<CannedTestingTransport, HelloWorldRpcName> =
        Transport::new(canned, TransportConfig::default());
    assert!(matches!(transport.receive_query(), Err(RpcError::ParseError(_))));
    assert_eq!(transport.internal_transport.receive_times, 0);
}

#[test]
fn short_read_ends_the_message() {
    match receive_step(vec![1, 2], Ok(&[3, 4])) {
        ReceiveStep::Return(Ok(bytes)) => assert_eq!(bytes, vec![1, 2, 3, 4]),
        _ => panic!("a short read should end the message"),
    }
}

#[test]
fn empty_read_ends_the_message() {
    match receive_step(vec![1, 2], Ok(&[])) {
        ReceiveStep::Return(Ok(bytes)) => assert_eq!(bytes, vec![1, 2]),
        _ => panic!("an empty read should end the message"),
    }
}

#[test]
fn full_read_asks_for_more() {
    assert_eq!(READ_BUFFER_SIZE, 1024);
    let full = vec![7u8; READ_BUFFER_SIZE];
    match receive_step(vec![1], Ok(&full)) {
        ReceiveStep::Continue(bytes) => {
            assert_eq!(bytes.len(), 1025);
            assert_eq!(bytes[0], 1);
            assert_eq!(bytes[1024], 7);
        }
        _ => panic!("a full read should ask for more"),
    }
    let almost = vec![7u8; READ_BUFFER_SIZE - 1];
    assert!(matches!(receive_step(Vec::new(), Ok(&almost)), ReceiveStep::Return(Ok(_))));
}

#[test]
fn failed_read_is_a_receive_error() {
    let e = std::io::Error::new(std::io::ErrorKind::ConnectionReset, "reset");
    match receive_step(vec![1, 2], Err(e)) {
        ReceiveStep::Return(Err(TransportError::ReceiveError(detail))) => assert!(detail.contains("reset")),
        _ => panic!("a failed read should end with a receive error"),
    }
}

#[test]
fn io_errors_become_transport_errors() {
    let e = std::io::Error::new(std::io::ErrorKind::BrokenPipe, "pipe");
    assert!(matches!(TransportError::io_send(e), TransportError::SendError(_)));
    let e = std::io::Error::new(std::io::ErrorKind::BrokenPipe, "pipe");
    assert!(matches!(TransportError::io_receive(e), TransportError::ReceiveError(_)));
}

#[test]
fn io_errors_are_described_as_they_print_themselves() {
    let e = std::io::Error::new(std::io::ErrorKind::BrokenPipe, "pipe");
    let printed = format!("{:?}", e);
    match TransportError::io_send(e) {
        TransportError::SendError(detail) => assert_eq!(detail, printed),
        _ => panic!("a failed write is a send error"),
    }
    let e = std::io::Error::from(std::io::ErrorKind::UnexpectedEof);
    let printed = format!("{:?}", e);
    match TransportError::io_receive(e) {
        TransportError::ReceiveError(detail) => assert_eq!(detail, printed),
        _ => panic!("a failed read is a receive error"),
    }
}

#[test]
fn failures_carry_the_text_they_are_given() {
    match TransportError::sending_failed(String::from("pipe")) {
        TransportError::SendError(detail) => assert_eq!(detail, "pipe"),
        _ => panic!("a failed write is a send error"),
    }
    match TransportError::receiving_failed(String::from("")) {
        TransportError::ReceiveError(detail) => assert_eq!(detail, ""),
        _ => panic!("a failed read is a receive error"),
    }
}

#[test]
fn transport_errors_render_with_their_variant() {
    assert_eq!(TransportError::SendError(String::from("a")).render(), "SendError(a)");
    assert_eq!(TransportError::ReceiveError(String::from("b")).render(), "ReceiveError(b)");
    assert_eq!(TransportError::ConnectError(String::from("")).render(), "ConnectError()");
    assert_eq!(RpcError::TransportError(TransportError::SendError(String::from("a"))).render(), "SendError(a)");
    assert_eq!(RpcError::Custom(String::from("Rpc not found: X")).render(), "Rpc not found: X");
    assert!(matches!(RpcError::from(TransportError::SendError(String::new())), RpcError::TransportError(_)));
}

#[test]
fn channel_results_become_call_results() {
    assert_eq!(into_rpc_result_transport::<u8>(Ok(7)).unwrap(), 7);
    match into_rpc_result_transport::<u8>(Err(TransportError::ConnectError(String::from("refused")))) {
        Err(RpcError::TransportError(TransportError::ConnectError(detail))) => assert_eq!(detail, "refused"),
        _ => panic!("a failure of the channel was expected"),
    }
}
