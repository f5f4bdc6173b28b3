use engineio_websocket::{rewrite_address, Error, WebsocketTransport};

#[test]
fn websocket_transport_base_url() {
    let server = "http://localhost:4201/";
    let input = server.to_string() + "engine.io/?EIO=" + &4.to_string();
    let mut transport = WebsocketTransport::new(&input).unwrap();
    let mut url = url::Url::parse(server).unwrap();
    url.set_path("/engine.io/");
    url.query_pairs_mut()
        .append_pair("EIO", &4.to_string())
        .append_pair("transport", "websocket");
    url.set_scheme("ws").unwrap();
    assert_eq!(transport.base_url(), url.to_string());
    transport.set_base_url("https://127.0.0.1").unwrap();
    assert_eq!(transport.base_url(), "ws://127.0.0.1/?transport=websocket");
    assert_ne!(transport.base_url(), url.to_string());

    transport
        .set_base_url("http://127.0.0.1/?transport=websocket")
        .unwrap();
    assert_eq!(transport.base_url(), "ws://127.0.0.1/?transport=websocket");
    assert_ne!(transport.base_url(), url.to_string());
}

#[test]
fn bootstrap_secure_address_becomes_plain_socket() {
    let transport = WebsocketTransport::new("https://example.com/").unwrap();
    assert_eq!(transport.base_url(), "ws://example.com/?transport=websocket");
}

#[test]
fn set_base_url_with_marker_is_idempotent() {
    let mut transport = WebsocketTransport::new("https://example.com/").unwrap();
    transport
        .set_base_url("http://example.com/?transport=websocket")
        .unwrap();
    assert_eq!(transport.base_url(), "ws://example.com/?transport=websocket");
    let again = transport.base_url();
    transport.set_base_url(&again).unwrap();
    assert_eq!(transport.base_url(), "ws://example.com/?transport=websocket");
}

#[test]
fn bootstrap_keeps_an_existing_marker_single() {
    let transport =
        WebsocketTransport::new("wss://example.com/engine.io/?EIO=4&transport=websocket").unwrap();
    assert_eq!(
        transport.base_url(),
        "ws://example.com/engine.io/?EIO=4&transport=websocket"
    );
}

#[test]
fn marker_with_other_value_gets_the_real_marker() {
    let address = rewrite_address("http://example.com/?transport=polling").unwrap();
    assert_eq!(
        address,
        "ws://example.com/?transport=polling&transport=websocket"
    );
}

#[test]
fn socket_scheme_is_kept() {
    let address = rewrite_address("ws://example.com:8080/x?a=1").unwrap();
    assert_eq!(address, "ws://example.com:8080/x?a=1&transport=websocket");
}

#[test]
fn fragment_stays_after_query() {
    let address = rewrite_address("http://example.com/p?a=b#frag").unwrap();
    assert_eq!(address, "ws://example.com/p?a=b&transport=websocket#frag");
}

#[test]
fn text_that_is_no_url_is_refused() {
    assert_eq!(
        WebsocketTransport::new("not a url").err(),
        Some(Error::InvalidUrl)
    );
    assert_eq!(rewrite_address("").err(), Some(Error::InvalidUrl));
}

#[test]
fn scheme_that_cannot_switch_is_refused() {
    assert_eq!(
        rewrite_address("mailto:someone@example.com").err(),
        Some(Error::UnsupportedScheme)
    );
}

#[test]
fn failed_set_base_url_keeps_address() {
    let mut transport = WebsocketTransport::new("http://example.com/").unwrap();
    assert_eq!(
        transport.set_base_url("::nonsense::"),
        Err(Error::InvalidUrl)
    );
    assert_eq!(transport.base_url(), "ws://example.com/?transport=websocket");
    assert_eq!(
        transport.set_base_url("mailto:someone@example.com"),
        Err(Error::UnsupportedScheme)
    );
    assert_eq!(transport.base_url(), "ws://example.com/?transport=websocket");
}

#[test]
fn every_web_scheme_is_taken() {
    for input in [
        "http://example.com/a",
        "https://example.com/a",
        "ws://example.com/a",
        "wss://example.com/a",
    ] {
        let transport = WebsocketTransport::new(input).unwrap();
        assert_eq!(transport.base_url(), "ws://example.com/a?transport=websocket");
    }
}

#[test]
fn scheme_that_is_not_special_is_refused() {
    assert_eq!(
        WebsocketTransport::new("foo://h/").err(),
        Some(Error::UnsupportedScheme)
    );
    let mut transport = WebsocketTransport::new("http://example.com/").unwrap();
    assert_eq!(transport.set_base_url("foo://h/"), Err(Error::UnsupportedScheme));
}

#[test]
fn setting_the_current_address_again_changes_nothing() {
    let mut transport =
        WebsocketTransport::new("https://user@example.com:8443/p/q?x=1#top").unwrap();
    let current = transport.base_url();
    assert_eq!(current, "ws://user@example.com:8443/p/q?x=1&transport=websocket#top");
    transport.set_base_url(&current).unwrap();
    assert_eq!(transport.base_url(), current);
}

#[test]
fn host_path_and_fragment_are_kept() {
    let address = rewrite_address("wss://example.org:9000/socket/path/?a=1&b=2#frag").unwrap();
    let parsed = url::Url::parse(&address).unwrap();
    assert_eq!(parsed.host_str(), Some("example.org"));
    assert_eq!(parsed.port(), Some(9000));
    assert_eq!(parsed.path(), "/socket/path/");
    assert_eq!(parsed.fragment(), Some("frag"));
    assert_eq!(parsed.query(), Some("a=1&b=2&transport=websocket"));
}

#[test]
fn default_port_of_the_old_scheme_is_dropped_when_it_is_the_new_default() {
    let address = rewrite_address("https://example.com:80/").unwrap();
    assert_eq!(address, "ws://example.com/?transport=websocket");
}

#[test]
fn upper_case_scheme_is_taken() {
    let transport = WebsocketTransport::new("HTTP://Example.COM/").unwrap();
    assert_eq!(transport.base_url(), "ws://example.com/?transport=websocket");
}

#[test]
fn explicit_port_is_kept() {
    let address = rewrite_address("https://example.com:8443/").unwrap();
    assert_eq!(address, "ws://example.com:8443/?transport=websocket");
}
