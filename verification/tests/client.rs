use pirates::error::{RpcError, TransportError};
use pirates::hello::{make_get_i_rpc, make_hello_world_rpc, HelloWorldRpcName};
use pirates::transport::{CannedTestingTransport, Transport, TransportConfig, TransportPackage};
use pirates::{RpcClient, ToFromBytes};

#[test]
fn client_test() {
    let internal_transport =
        CannedTestingTransport { always_respond_with: "Foo-Bar".to_string(), receive_times: 0 };
    let mut transport = Transport::new(internal_transport, Default::default());

    let rpc_client = RpcClient { rpc: make_hello_world_rpc() };

    let result = rpc_client.call("Foo".into(), &mut transport).unwrap();

    assert_eq!(String::from("Foo-Bar"), result);
}

#[test]
fn client_refuses_a_reply_of_another_type() {
    let internal_transport =
        CannedTestingTransport { always_respond_with: "Foo-Bar".to_string(), receive_times: 0 };
    let mut transport = Transport::new(internal_transport, TransportConfig::default());
    let rpc_client = RpcClient::new(make_get_i_rpc());
    assert!(matches!(rpc_client.call((), &mut transport), Err(RpcError::ParseError(_))));
}

#[test]
fn request_is_the_frame_of_the_encoded_query() {
    let config = TransportConfig::default();
    let rpc_client = RpcClient::new(make_hello_world_rpc());
    let frame = rpc_client.request(&String::from("foo"), &config).unwrap();
    let name_bytes = config.serialize_name(&HelloWorldRpcName::HelloWorld).unwrap();
    let query_bytes = String::from("foo").to_bytes().unwrap();
    let package = TransportPackage { name_bytes: &name_bytes, query_bytes: &query_bytes };
    assert_eq!(frame, package.to_bytes(&config).unwrap());
}

#[test]
fn reply_is_decoded_as_the_response() {
    let config = TransportConfig::default();
    let bytes = 4usize.to_bytes().unwrap();
    let r = RpcClient::<HelloWorldRpcName, (), usize>::read_reply(&config, Ok(bytes));
    assert_eq!(r.unwrap(), 4);
}

#[test]
fn failed_reply_is_handed_on() {
    let config = TransportConfig::default();
    let failure = RpcError::TransportError(TransportError::ReceiveError(String::from("gone")));
    match RpcClient::<HelloWorldRpcName, (), usize>::read_reply(&config, Err(failure)) {
        Err(RpcError::TransportError(TransportError::ReceiveError(detail))) => assert_eq!(detail, "gone"),
        _ => panic!("the failure should be handed on"),
    }
    let r = RpcClient::<HelloWorldRpcName, (), usize>::read_reply(&config, Ok(vec![0x80]));
    assert!(matches!(r, Err(RpcError::ParseError(_))));
}
