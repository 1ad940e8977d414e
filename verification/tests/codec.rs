use pirates::error::RpcError;
use pirates::transport::TransportConfig;
use pirates::ToFromBytes;

#[test]
fn text_has_the_pickle_form_of_a_string() {
    let bytes = String::from("Foo").to_bytes().unwrap();
    assert_eq!(bytes, vec![0x80, 0x03, b'X', 3, 0, 0, 0, b'F', b'o', b'o', b'.']);
    assert_eq!(bytes, serde_pickle::to_vec(&"Foo", serde_pickle::SerOptions::new()).unwrap());
}

#[test]
fn text_is_written_in_utf8_with_its_length_in_bytes() {
    let bytes = String::from("h\u{e9}\u{20ac}").to_bytes().unwrap();
    assert_eq!(
        bytes,
        vec![0x80, 0x03, b'X', 6, 0, 0, 0, b'h', 0xc3, 0xa9, 0xe2, 0x82, 0xac, b'.']
    );
    assert_eq!(String::of_bytes(&bytes).unwrap(), "h\u{e9}\u{20ac}");
    let long = "a".repeat(300);
    let bytes = long.clone().to_bytes().unwrap();
    assert_eq!(bytes[0..7], [0x80, 0x03, b'X', 44, 1, 0, 0]);
    assert_eq!(bytes.len(), 308);
    assert_eq!(String::of_bytes(&bytes).unwrap(), long);
}

#[test]
fn number_below_two_to_the_31_is_the_last_short_one() {
    let n: u64 = 0x7fff_ffff;
    let bytes = n.to_bytes().unwrap();
    assert_eq!(bytes, vec![0x80, 0x03, b'J', 0xff, 0xff, 0xff, 0x7f, b'.']);
    assert_eq!(u64::of_bytes(&bytes).unwrap(), n);
    let n: u64 = 0x0102_0304_0506_0708;
    let bytes = n.to_bytes().unwrap();
    assert_eq!(bytes, vec![0x80, 0x03, 0x8a, 9, 8, 7, 6, 5, 4, 3, 2, 1, 0, b'.']);
    assert_eq!(u64::of_bytes(&bytes).unwrap(), n);
}

#[test]
fn text_survives_the_codec() {
    let bytes = String::from("Hello world: 3:foo").to_bytes().unwrap();
    assert_eq!(String::of_bytes(&bytes).unwrap(), "Hello world: 3:foo");
    let empty = String::new().to_bytes().unwrap();
    assert_eq!(String::of_bytes(&empty).unwrap(), "");
}

#[test]
fn unit_has_the_pickle_form_of_none() {
    let bytes = ().to_bytes().unwrap();
    assert_eq!(bytes, vec![0x80, 0x03, b'N', b'.']);
    assert_eq!(<()>::of_bytes(&bytes).unwrap(), ());
}

#[test]
fn unit_is_not_read_from_a_number() {
    let bytes = 3usize.to_bytes().unwrap();
    assert!(matches!(<()>::of_bytes(&bytes), Err(RpcError::ParseError(_))));
}

#[test]
fn small_number_has_the_pickle_form_of_a_four_byte_int() {
    let bytes = 3usize.to_bytes().unwrap();
    assert_eq!(bytes, vec![0x80, 0x03, b'J', 3, 0, 0, 0, b'.']);
    assert_eq!(usize::of_bytes(&bytes).unwrap(), 3);
    assert_eq!(3u64.to_bytes().unwrap(), bytes);
    assert_eq!(u64::of_bytes(&bytes).unwrap(), 3);
}

#[test]
fn large_number_has_the_pickle_form_of_a_long() {
    let n: u64 = 0x8000_0000;
    let bytes = n.to_bytes().unwrap();
    assert_eq!(bytes, vec![0x80, 0x03, 0x8a, 9, 0, 0, 0, 0x80, 0, 0, 0, 0, 0, b'.']);
    assert_eq!(u64::of_bytes(&bytes).unwrap(), n);
}

#[test]
fn largest_number_is_written_but_not_read_back() {
    let bytes = u64::MAX.to_bytes().unwrap();
    assert_eq!(
        bytes,
        vec![0x80, 0x03, 0x8a, 9, 0xff, 0xff, 0xff, 0xff, 0xff, 0xff, 0xff, 0xff, 0, b'.']
    );
    assert!(matches!(u64::of_bytes(&bytes), Err(RpcError::ParseError(_))));
}

#[test]
fn number_is_not_read_from_text() {
    let bytes = String::from("3").to_bytes().unwrap();
    assert!(matches!(usize::of_bytes(&bytes), Err(RpcError::ParseError(_))));
    assert!(matches!(u64::of_bytes(&bytes), Err(RpcError::ParseError(_))));
}

#[test]
fn numbers_have_the_pickle_form_of_a_list() {
    let bytes = vec![1u32, 1u32].to_bytes().unwrap();
    assert_eq!(
        bytes,
        vec![0x80, 0x03, b']', b'(', b'J', 1, 0, 0, 0, b'J', 1, 0, 0, 0, b'e', b'.']
    );
    assert_eq!(Vec::<u32>::of_bytes(&bytes).unwrap(), vec![1u32, 1u32]);
    let empty = Vec::<u32>::new().to_bytes().unwrap();
    assert_eq!(empty, vec![0x80, 0x03, b']', b'.']);
    assert_eq!(Vec::<u32>::of_bytes(&empty).unwrap(), Vec::<u32>::new());
}

#[test]
fn texts_have_the_pickle_form_of_a_list() {
    let names = vec![String::from("a"), String::from("bc")];
    let bytes = names.to_bytes().unwrap();
    assert_eq!(
        bytes,
        vec![
            0x80, 0x03, b']', b'(', b'X', 1, 0, 0, 0, b'a', b'X', 2, 0, 0, 0, b'b', b'c', b'e',
            b'.'
        ]
    );
    assert_eq!(Vec::<String>::of_bytes(&bytes).unwrap(), names);
}

#[test]
fn truncated_bytes_are_a_parse_error() {
    let mut bytes = String::from("Foo").to_bytes().unwrap();
    bytes.truncate(5);
    assert!(matches!(String::of_bytes(&bytes), Err(RpcError::ParseError(_))));
    assert!(matches!(Vec::<u32>::of_bytes(&[]), Err(RpcError::ParseError(_))));
    assert!(matches!(Vec::<String>::of_bytes(&[0x80]), Err(RpcError::ParseError(_))));
}

#[test]
fn config_encodes_as_the_type_does() {
    let config = TransportConfig::default();
    let query = String::from("Foo");
    assert_eq!(config.serialize(&query).unwrap(), query.to_bytes().unwrap());
    let back: String = config.deserialize(&query.to_bytes().unwrap()).unwrap();
    assert_eq!(back, query);
    assert!(matches!(config.deserialize::<usize>(&query.to_bytes().unwrap()), Err(RpcError::ParseError(_))));
}

#[test]
fn parse_error_is_rendered_by_the_codec() {
    let e = String::of_bytes(&[]).unwrap_err();
    assert!(!e.render().is_empty());
    let from: RpcError = RpcError::from(serde_pickle::from_slice::<String>(&[], serde_pickle::DeOptions::new()).unwrap_err());
    assert!(matches!(from, RpcError::ParseError(_)));
}
