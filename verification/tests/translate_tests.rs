use ssctl::addr::{parse_socket_address, SocketAddress};
use ssctl::translate::{error_code, translate_payload, StartError};

fn addr(ip0: u8, ip1: u8, ip2: u8, ip3: u8, port: u16) -> SocketAddress {
    SocketAddress { ip0, ip1, ip2, ip3, port }
}

#[test]
fn round_trip_valid_payload() {
    let payload =
        "{\"server\":{\"server\":\"127.0.0.1:8388\",\"password\":\"p@ss\",\"method\":\"aes-256-gcm\"}}";
    let d = translate_payload(payload)
        .expect("valid payload accepted")
        .expect("descriptor present");
    assert_eq!(d.address, Some(addr(127, 0, 0, 1, 8388)));
    assert_eq!(d.address_text, "127.0.0.1:8388");
    assert_eq!(d.password, "p@ss");
    assert_eq!(d.method, "aes-256-gcm");
    assert!(d.plugin.is_none());
}

#[test]
fn plugin_without_options_is_ignored() {
    let payload = "{\"server\":{\"server\":\"10.0.0.2:443\",\"password\":\"secret\",\
                   \"method\":\"chacha20-ietf-poly1305\",\"plugin\":\"v2ray-plugin\"}}";
    let d = translate_payload(payload)
        .expect("valid payload accepted")
        .expect("descriptor present");
    assert!(d.plugin.is_none());
}

#[test]
fn plugin_with_options_is_attached() {
    let payload = "{\"server\":{\"server\":\"10.0.0.2:443\",\"password\":\"secret\",\
                   \"method\":\"chacha20-ietf-poly1305\",\"plugin\":\"v2ray-plugin\",\
                   \"plugin_opts\":\"mode=websocket\"}}";
    let d = translate_payload(payload)
        .expect("valid payload accepted")
        .expect("descriptor present");
    let p = d.plugin.expect("plugin attached");
    assert_eq!(p.name, "v2ray-plugin");
    assert_eq!(p.options, "mode=websocket");
}

#[test]
fn options_without_plugin_is_ignored() {
    let payload = "{\"server\":{\"server\":\"10.0.0.2:443\",\"password\":\"secret\",\
                   \"method\":\"chacha20-ietf-poly1305\",\"plugin_opts\":\"mode=websocket\"}}";
    let d = translate_payload(payload)
        .expect("valid payload accepted")
        .expect("descriptor present");
    assert!(d.plugin.is_none());
}

#[test]
fn malformed_payload_is_rejected() {
    assert_eq!(translate_payload("{oops"), Err(StartError::MalformedPayload));
    assert_eq!(translate_payload(""), Err(StartError::MalformedPayload));
    assert_eq!(error_code(StartError::MalformedPayload), -3);
}

#[test]
fn payload_without_server_yields_no_descriptor() {
    assert_eq!(translate_payload("{}"), Ok(None));
    // A `server` entry that is not an object counts as no server configured.
    assert_eq!(translate_payload("{\"server\": 5}"), Ok(None));
    assert_eq!(translate_payload("42"), Ok(None));
}

#[test]
fn ipv6_address_is_accepted() {
    let payload = "{\"server\":{\"server\":\"[2001:db8::1]:8388\",\"password\":\"p@ss\",\
                   \"method\":\"aes-256-gcm\"}}";
    let d = translate_payload(payload)
        .expect("valid payload accepted")
        .expect("descriptor present");
    assert_eq!(d.address_text, "[2001:db8::1]:8388");
    // An IPv6 literal has no dotted-quad reading.
    assert_eq!(d.address, None);
}

#[test]
fn zero_prefixed_port_is_accepted() {
    // The socket-address parser tolerates a zero-prefixed port; the
    // dotted-quad reading is canonical-form only, so there is none here.
    let payload = "{\"server\":{\"server\":\"1.2.3.4:05\",\"password\":\"p@ss\",\
                   \"method\":\"aes-256-gcm\"}}";
    let d = translate_payload(payload)
        .expect("valid payload accepted")
        .expect("descriptor present");
    assert_eq!(d.address_text, "1.2.3.4:05");
    assert_eq!(d.address, None);
}

#[test]
fn missing_or_bad_address_is_rejected() {
    let missing = "{\"server\":{\"password\":\"p\",\"method\":\"aes-256-gcm\"}}";
    assert_eq!(translate_payload(missing), Err(StartError::InvalidAddress));
    let not_a_string = "{\"server\":{\"server\":17,\"password\":\"p\",\"method\":\"aes-256-gcm\"}}";
    assert_eq!(translate_payload(not_a_string), Err(StartError::InvalidAddress));
    let no_port = "{\"server\":{\"server\":\"127.0.0.1\",\"password\":\"p\",\"method\":\"aes-256-gcm\"}}";
    assert_eq!(translate_payload(no_port), Err(StartError::InvalidAddress));
    let host_name = "{\"server\":{\"server\":\"example.com:80\",\"password\":\"p\",\"method\":\"aes-256-gcm\"}}";
    assert_eq!(translate_payload(host_name), Err(StartError::InvalidAddress));
    assert_eq!(error_code(StartError::InvalidAddress), -4);
}

#[test]
fn missing_or_empty_password_is_rejected() {
    let missing = "{\"server\":{\"server\":\"127.0.0.1:8388\",\"method\":\"aes-256-gcm\"}}";
    assert_eq!(translate_payload(missing), Err(StartError::MissingPassword));
    let empty = "{\"server\":{\"server\":\"127.0.0.1:8388\",\"password\":\"\",\"method\":\"aes-256-gcm\"}}";
    assert_eq!(translate_payload(empty), Err(StartError::MissingPassword));
    assert_eq!(error_code(StartError::MissingPassword), -6);
}

#[test]
fn missing_or_unknown_cipher_is_rejected() {
    let missing = "{\"server\":{\"server\":\"127.0.0.1:8388\",\"password\":\"p\"}}";
    assert_eq!(translate_payload(missing), Err(StartError::InvalidCipher));
    let unknown = "{\"server\":{\"server\":\"127.0.0.1:8388\",\"password\":\"p\",\"method\":\"rot13\"}}";
    assert_eq!(translate_payload(unknown), Err(StartError::InvalidCipher));
    assert_eq!(error_code(StartError::InvalidCipher), -7);
}

#[test]
fn refused_engine_entry_is_rejected() {
    // An AEAD-2022 cipher requires the password to be the base64 form of a
    // key of exactly the cipher's key length; "p@ss" is neither, so the
    // engine refuses to construct the entry.
    let payload = "{\"server\":{\"server\":\"127.0.0.1:8388\",\"password\":\"p@ss\",\
                   \"method\":\"2022-blake3-aes-256-gcm\"}}";
    assert_eq!(translate_payload(payload), Err(StartError::InvalidServerConfig));
    assert_eq!(error_code(StartError::InvalidServerConfig), -9);
}

#[test]
fn accepted_engine_entry_with_2022_key() {
    // 32 zero bytes in base64: a well-formed key for 2022-blake3-aes-256-gcm.
    let payload = "{\"server\":{\"server\":\"127.0.0.1:8388\",\
                   \"password\":\"AAAAAAAAAAAAAAAAAAAAAAAAAAAAAAAAAAAAAAAAAAA=\",\
                   \"method\":\"2022-blake3-aes-256-gcm\"}}";
    let d = translate_payload(payload)
        .expect("valid payload accepted")
        .expect("descriptor present");
    assert_eq!(d.method, "2022-blake3-aes-256-gcm");
}

#[test]
fn socket_address_grammar() {
    assert_eq!(parse_socket_address("127.0.0.1:8388"), Some(addr(127, 0, 0, 1, 8388)));
    assert_eq!(parse_socket_address("0.0.0.0:0"), Some(addr(0, 0, 0, 0, 0)));
    assert_eq!(parse_socket_address("255.255.255.255:65535"), Some(addr(255, 255, 255, 255, 65535)));
    assert_eq!(parse_socket_address(""), None);
    assert_eq!(parse_socket_address("127.0.0.1"), None);
    assert_eq!(parse_socket_address("127.0.0:8388"), None);
    assert_eq!(parse_socket_address("127.0.0.1.2:8388"), None);
    assert_eq!(parse_socket_address("256.0.0.1:8388"), None);
    assert_eq!(parse_socket_address("127.0.0.1:65536"), None);
    assert_eq!(parse_socket_address("01.2.3.4:5"), None);
    assert_eq!(parse_socket_address("1.2.3.4:05"), None);
    assert_eq!(parse_socket_address("1.2.3.4:"), None);
    assert_eq!(parse_socket_address(".2.3.4:5"), None);
    assert_eq!(parse_socket_address("1.2.3.4:5x"), None);
    assert_eq!(parse_socket_address("a.b.c.d:e"), None);
    assert_eq!(parse_socket_address("1.2.3.4:5:6"), None);
}
