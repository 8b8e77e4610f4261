use mini_http::error::ClientError;
use mini_http::request::get_request;
use mini_http::tls::{alpn_offer, client_config, client_session};
use mini_http::url::{Query, Scheme, Url};

#[test]
fn host_only_gets_default_port() {
    for (uri, scheme, port) in [
        ("http://example.org", Scheme::HTTP, 80),
        ("https://example.org", Scheme::HTTPS, 443),
        ("example.org", Scheme::HTTP, 80),
    ] {
        let url = Url::from(uri);
        assert_eq!(url.scheme(), scheme);
        assert_eq!(url.host(), "example.org");
        assert_eq!(url.port(), port);
        assert!(url.path().is_empty());
        assert!(url.query().is_empty());
        assert!(url.fragment().is_empty());
    }
}

#[test]
fn https_with_port_and_nothing_else() {
    let url = Url::from("https://test.com:3000");
    assert_eq!(url.scheme(), Scheme::HTTPS);
    assert_eq!(url.host(), "test.com");
    assert_eq!(url.port(), 3000);
    assert!(url.path().is_empty());
    assert!(url.query().is_empty());
    assert!(url.fragment().is_empty());
}

#[test]
fn malformed_port_falls_back_to_default() {
    assert_eq!(Url::from("http://h:abc/x").port(), 80);
    assert_eq!(Url::from("https://h:65536").port(), 443);
    assert_eq!(Url::from("https://h:").port(), 443);
    assert_eq!(Url::from("http://h:-1").port(), 80);
    assert_eq!(Url::from("http://h:+").port(), 80);
}

#[test]
fn port_edge_values() {
    assert_eq!(Url::from("http://h:65535").port(), 65535);
    assert_eq!(Url::from("http://h:0").port(), 0);
    assert_eq!(Url::from("http://h:+8080/p").port(), 8080);
    assert_eq!(Url::from("http://h:007").port(), 7);
}

#[test]
fn colon_inside_path_is_not_a_port() {
    let url = Url::from("https://h/a:b");
    assert_eq!(url.host(), "h");
    assert_eq!(url.port(), 443);
    assert_eq!(url.path(), "/a:b");
}

#[test]
fn no_scheme_defaults_to_http() {
    let url = Url::from("ftp://h/x");
    assert_eq!(url.scheme(), Scheme::HTTP);
    assert_eq!(url.host(), "ftp");
    assert_eq!(url.port(), 80);
    assert_eq!(url.path(), "//h/x");
}

#[test]
fn empty_input() {
    let url = Url::from("");
    assert_eq!(url.scheme(), Scheme::HTTP);
    assert_eq!(url.host(), "");
    assert_eq!(url.port(), 80);
    assert!(url.path().is_empty());
    assert!(url.query().is_empty());
    assert!(url.fragment().is_empty());
}

#[test]
fn query_keeps_order_duplicates_and_empty_values() {
    let q = Query::from("a=1&b&a=2&=x&c=d=e");
    assert_eq!(
        q.to_vec(),
        vec![("a", "1"), ("b", ""), ("a", "2"), ("", "x"), ("c", "d=e")]
    );
    assert_eq!(Query::from("").to_vec(), vec![("", "")]);
    assert!(Query::new().is_empty());
}

#[test]
fn queries_with_fragment_after() {
    let url = Url::from("https://a.test.com:7888/test?test=abc&test1=well");
    assert_eq!(url.host(), "a.test.com");
    assert_eq!(url.port(), 7888);
    assert_eq!(url.path(), "/test");
    assert_eq!(url.query().clone().to_vec(), vec![("test", "abc"), ("test1", "well")]);
    assert!(url.fragment().is_empty());
}

#[test]
fn fragment_is_taken_before_query() {
    let url = Url::from("https://a.test.com:7888/test/abc#frag?test=abc");
    assert_eq!(url.path(), "/test/abc");
    assert!(url.query().is_empty());
    assert_eq!(url.fragment(), "frag?test=abc");
    let url = Url::from("http://h#f?q=1");
    assert_eq!(url.host(), "h#f?q=1");
    let url = Url::from("http://h/p?x=1#y");
    assert_eq!(url.query().clone().to_vec(), vec![("x", "1")]);
    assert_eq!(url.fragment(), "y");
}

#[test]
fn non_ascii_text_is_split_by_characters() {
    let url = Url::from("https://bücher.de:81/straße?ä=ö#ü");
    assert_eq!(url.host(), "bücher.de");
    assert_eq!(url.port(), 81);
    assert_eq!(url.path(), "/straße");
    assert_eq!(url.query().clone().to_vec(), vec![("ä", "ö")]);
    assert_eq!(url.fragment(), "ü");
}

#[test]
fn request_text_for_a_url() {
    let url = Url::from("http://test.com:8080/a/b?x=1#f");
    assert_eq!(
        get_request(&url),
        "GET /a/b HTTP/1.1\r\nHost: test.com\r\nConnection: close\r\n\r\n"
    );
    let url = Url::from("http://test.com");
    assert_eq!(
        get_request(&url),
        "GET  HTTP/1.1\r\nHost: test.com\r\nConnection: close\r\n\r\n"
    );
}

#[test]
fn alpn_offer_is_h2_then_http11() {
    assert_eq!(alpn_offer(), vec![b"h2".to_vec(), b"http/1.1".to_vec()]);
}

#[test]
fn client_config_offers_alpn() {
    let config = client_config().into_rustls();
    assert_eq!(config.alpn_protocols, vec![b"h2".to_vec(), b"http/1.1".to_vec()]);
}

#[test]
fn error_messages_and_sources() {
    let e = ClientError::AddressNotFound("nowhere.invalid".to_string());
    assert_eq!(e.message(), "Address not found: nowhere.invalid");
    assert!(e.source().is_none());
    let io = std::io::Error::new(std::io::ErrorKind::ConnectionRefused, "refused");
    let e = ClientError::from(io);
    assert!(matches!(e, ClientError::Network(_)));
    assert_eq!(e.message(), "Network error: refused");
    assert_eq!(e.source().map(|s| s.kind()), Some(std::io::ErrorKind::ConnectionRefused));
}

#[test]
fn session_needs_a_server_name() {
    match client_session(client_config().into_rustls(), "not a host!") {
        Err(ClientError::Network(e)) => assert_eq!(e.kind(), std::io::ErrorKind::InvalidInput),
        _ => panic!("an invalid server name must fail"),
    }
    assert!(client_session(client_config().into_rustls(), "").is_err());
    assert!(client_session(client_config().into_rustls(), "a.test.com").is_ok());
    assert!(client_session(client_config().into_rustls(), "127.0.0.1").is_ok());
}

#[test]
fn parts_keep_their_shape() {
    let url = Url::from("http://h:1:2/p/q#x?y");
    assert_eq!(url.host(), "h");
    assert_eq!(url.port(), 80);
    assert_eq!(url.path(), "/p/q");
    assert!(url.query().is_empty());
    assert_eq!(url.fragment(), "x?y");
    for uri in ["a:b:c", "x/y:z?k#f", "https://:9", "http://?#/:"] {
        let url = Url::from(uri);
        assert!(!url.host().contains(':') && !url.host().contains('/'));
        let path = url.path();
        assert!(path.is_empty() || path.starts_with('/'));
        assert!(!path.contains('?') && !path.contains('#'));
    }
}
