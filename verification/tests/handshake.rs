use gateway_ws::error::WsError;
use gateway_ws::handshake::{
    create_request, finish_request, fresh_handshake_headers, handshake_headers,
    request_with_headers, session_config, Header, KEY_INDEX,
};

fn expected_table(key: &str) -> Vec<(String, String)> {
    let table = vec![
        ("Host", "gateway.discord.gg"),
        (
            "User-Agent",
            "Mozilla/5.0 (Windows NT 10.0; Win64; x64) AppleWebKit/537.36 (KHTML, like Gecko) Chrome/108.0.0.0 Safari/537.36",
        ),
        ("Accept", "*/*"),
        ("Accept-Language", "en-US,en;q=0.5"),
        ("Accept-Encoding", "gzip, deflate, br"),
        ("Sec-WebSocket-Version", "13"),
        ("Origin", "https://discord.com"),
        ("Sec-WebSocket-Extensions", "permessage-deflate"),
        ("Sec-WebSocket-Key", key),
        ("Connection", "keep-alive, Upgrade"),
        ("Sec-Fetch-Dest", "websocket"),
        ("Sec-Fetch-Mode", "websocket"),
        ("Sec-Fetch-Site", "cross-site"),
        ("Pragma", "no-cache"),
        ("Cache-Control", "no-cache"),
        ("Upgrade", "websocket"),
    ];
    table.into_iter().map(|(name, value)| (name.to_string(), value.to_string())).collect()
}

fn pairs(headers: &[Header]) -> Vec<(String, String)> {
    headers.iter().map(|header| (header.name.clone(), header.value.clone())).collect()
}

#[test]
fn header_table_is_exact() {
    let headers = handshake_headers("dGhlIHNhbXBsZSBub25jZQ==".to_string());
    assert_eq!(headers.len(), 16);
    assert_eq!(pairs(&headers), expected_table("dGhlIHNhbXBsZSBub25jZQ=="));
}

#[test]
fn key_stands_at_its_index() {
    assert_eq!(KEY_INDEX, 8);
    let headers = handshake_headers("k".to_string());
    assert_eq!(headers[KEY_INDEX].name, "Sec-WebSocket-Key");
    assert_eq!(headers[KEY_INDEX].value, "k");
}

#[test]
fn fresh_headers_differ_only_in_the_key() {
    let first = fresh_handshake_headers();
    let second = fresh_handshake_headers();
    assert_eq!(pairs(&first), expected_table(&first[KEY_INDEX].value));
    assert_eq!(pairs(&second), expected_table(&second[KEY_INDEX].value));
    assert!(!first[KEY_INDEX].value.is_empty());
    assert_ne!(first[KEY_INDEX].value, second[KEY_INDEX].value);
}

#[test]
fn session_has_no_limits() {
    let config = session_config();
    assert_eq!(config.max_message_size, None);
    assert_eq!(config.max_frame_size, None);
    assert_eq!(config.max_send_queue, None);
    assert!(!config.accept_unmasked_frames);
}

#[test]
fn request_carries_the_headers() {
    let request = create_request("wss://gateway.discord.gg/?v=10&encoding=json").unwrap();
    assert_eq!(request.method().as_str(), "GET");
    assert_eq!(request.uri().to_string(), "wss://gateway.discord.gg/?v=10&encoding=json");
    assert_eq!(request.headers().len(), 16);
    for (name, value) in expected_table("") {
        let got = request.headers().get(name.as_str()).unwrap().to_str().unwrap();
        if name == "Sec-WebSocket-Key" {
            assert!(!got.is_empty());
        } else {
            assert_eq!(got, value);
        }
    }
}

#[test]
fn request_adds_headers_in_order() {
    let headers = vec![
        Header { name: "Accept".to_string(), value: "a".to_string() },
        Header { name: "Accept".to_string(), value: "b".to_string() },
        Header { name: "Pragma".to_string(), value: "c".to_string() },
    ];
    let request = request_with_headers("ws://localhost:9000/", &headers).unwrap();
    let accepted: Vec<&str> =
        request.headers().get_all("Accept").iter().map(|value| value.to_str().unwrap()).collect();
    assert_eq!(accepted, vec!["a", "b"]);
    assert_eq!(request.headers().get("Pragma").unwrap().to_str().unwrap(), "c");
    assert_eq!(request.headers().len(), 3);
}

#[test]
fn malformed_address_is_handshake_error() {
    let result = create_request("ws://bad host/with spaces");
    assert!(matches!(result, Err(WsError::Handshake(_))));
}

#[test]
fn malformed_header_is_handshake_error() {
    let headers = vec![Header { name: "bad name".to_string(), value: "v".to_string() }];
    let result = request_with_headers("ws://localhost/", &headers);
    assert!(matches!(result, Err(WsError::Handshake(_))));
    let headers = vec![Header { name: "Accept".to_string(), value: "line\nbreak".to_string() }];
    let result = request_with_headers("ws://localhost/", &headers);
    assert!(matches!(result, Err(WsError::Handshake(_))));
}

#[test]
fn finished_request_is_handed_on() {
    let built = async_tungstenite::tungstenite::http::Request::get("ws://localhost/").body(());
    let request = finish_request(built).unwrap();
    assert_eq!(request.uri().to_string(), "ws://localhost/");
}

#[test]
fn request_keeps_one_entry_for_each_header() {
    let request = create_request("wss://gateway.discord.gg/").unwrap();
    let mut kept: Vec<(String, String)> = request
        .headers()
        .iter()
        .map(|(name, value)| (name.as_str().to_string(), value.to_str().unwrap().to_string()))
        .collect();
    let key = request.headers().get("sec-websocket-key").unwrap().to_str().unwrap().to_string();
    let mut expected: Vec<(String, String)> = expected_table(&key)
        .into_iter()
        .map(|(name, value)| (name.to_ascii_lowercase(), value))
        .collect();
    kept.sort();
    expected.sort();
    assert_eq!(kept, expected);
}

#[test]
fn request_keeps_the_address() {
    let headers = handshake_headers("k".to_string());
    let request = request_with_headers("wss://gateway.discord.gg/?v=9", &headers).unwrap();
    assert_eq!(request.uri().to_string(), "wss://gateway.discord.gg/?v=9");
    let request = request_with_headers("ws://localhost:9000", &Vec::new()).unwrap();
    assert_eq!(request.uri().to_string(), "ws://localhost:9000/");
    assert_eq!(request.headers().len(), 0);
}

#[test]
fn fresh_key_has_the_shape_of_a_handshake_key() {
    for _ in 0..20 {
        let headers = fresh_handshake_headers();
        let key: Vec<char> = headers[KEY_INDEX].value.chars().collect();
        assert_eq!(key.len(), 24);
        for digit in &key[..22] {
            assert!(digit.is_ascii_alphanumeric() || *digit == '+' || *digit == '/');
        }
        assert_eq!(key[22], '=');
        assert_eq!(key[23], '=');
    }
}

#[test]
fn request_is_a_get_request() {
    let request = request_with_headers("ws://localhost/", &Vec::new()).unwrap();
    assert_eq!(request.method().as_str(), "GET");
    let request = create_request("wss://gateway.discord.gg/").unwrap();
    assert_eq!(request.method().to_string(), "GET");
}

#[test]
fn request_takes_a_full_list_of_headers() {
    let mut headers = Vec::new();
    for i in 0..128 {
        headers.push(Header { name: format!("X-Custom-{}", i), value: i.to_string() });
    }
    let request = request_with_headers("ws://localhost/", &headers).unwrap();
    assert_eq!(request.headers().len(), 128);
    assert_eq!(request.headers().get("x-custom-127").unwrap().to_str().unwrap(), "127");
}
