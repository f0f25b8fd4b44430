use sniff_proxy::{classify, first_two_tokens, plain_decision, tunnel_target, Decision};

#[test]
fn connect_with_port() {
    let preview = b"CONNECT example.com:8443 HTTP/1.1\r\nHost: example.com:8443\r\n\r\n".to_vec();
    let d = classify(&preview);
    assert_eq!(
        d,
        Decision::Tunnel { host: b"example.com".to_vec(), port: b"8443".to_vec() }
    );
}

#[test]
fn connect_without_port_defaults_to_443() {
    let preview = b"CONNECT example.com HTTP/1.1\r\n\r\n".to_vec();
    let d = classify(&preview);
    assert_eq!(
        d,
        Decision::Tunnel { host: b"example.com".to_vec(), port: b"443".to_vec() }
    );
}

#[test]
fn connect_is_case_insensitive() {
    let preview = b"connect example.com:443 HTTP/1.1\r\n\r\n".to_vec();
    let d = classify(&preview);
    assert_eq!(
        d,
        Decision::Tunnel { host: b"example.com".to_vec(), port: b"443".to_vec() }
    );
}

#[test]
fn connect_keeps_port_as_written() {
    // the port segment is taken verbatim, even when it is not a number
    let preview = b"CONNECT example.com:abc HTTP/1.1\r\n\r\n".to_vec();
    let d = classify(&preview);
    assert_eq!(
        d,
        Decision::Tunnel { host: b"example.com".to_vec(), port: b"abc".to_vec() }
    );
}

#[test]
fn connect_takes_segment_between_first_and_second_colon() {
    let preview = b"CONNECT a:1:2 HTTP/1.1\r\n\r\n".to_vec();
    let d = classify(&preview);
    assert_eq!(d, Decision::Tunnel { host: b"a".to_vec(), port: b"1".to_vec() });
}

#[test]
fn plain_request_with_explicit_port() {
    let preview = b"GET http://example.com:8080/path?q=1 HTTP/1.1\r\n\r\n".to_vec();
    let d = classify(&preview);
    assert_eq!(d, Decision::Forward { host: b"example.com".to_vec(), port: 8080 });
}

#[test]
fn plain_request_without_port_defaults_to_80() {
    let preview = b"GET http://example.com/hello/world HTTP/1.1\r\n\r\n".to_vec();
    let d = classify(&preview);
    assert_eq!(d, Decision::Forward { host: b"example.com".to_vec(), port: 80 });
}

#[test]
fn plain_request_post_method() {
    let preview = b"POST http://upload.example.org:9000/submit HTTP/1.1\r\n\r\n".to_vec();
    let d = classify(&preview);
    assert_eq!(
        d,
        Decision::Forward { host: b"upload.example.org".to_vec(), port: 9000 }
    );
}

#[test]
fn empty_preview_means_no_action() {
    let preview: Vec<u8> = Vec::new();
    assert_eq!(classify(&preview), Decision::NoAction);
}

#[test]
fn whitespace_only_preview_means_no_action() {
    let preview = b" \t\r\n".to_vec();
    assert_eq!(classify(&preview), Decision::NoAction);
}

#[test]
fn relative_url_has_no_host() {
    let preview = b"GET /index.html HTTP/1.1\r\n\r\n".to_vec();
    assert_eq!(classify(&preview), Decision::NoAction);
}

#[test]
fn unparseable_target_means_no_action() {
    let preview = b"GET ^^not^a^url^^ HTTP/1.1\r\n\r\n".to_vec();
    assert_eq!(classify(&preview), Decision::NoAction);
}

#[test]
fn non_utf8_target_means_no_action() {
    let mut preview = b"GET http://exa".to_vec();
    preview.push(0xff);
    preview.extend_from_slice(b"mple.com/ HTTP/1.1\r\n\r\n");
    assert_eq!(classify(&preview), Decision::NoAction);
}

#[test]
fn first_two_tokens_split_on_whitespace() {
    let preview = b"  GET\thttp://a/  rest".to_vec();
    let (method, target) = first_two_tokens(&preview);
    assert_eq!(method, b"GET".to_vec());
    assert_eq!(target, b"http://a/".to_vec());
}

#[test]
fn first_two_tokens_missing_are_empty() {
    let preview = b"ONLYONE".to_vec();
    let (method, target) = first_two_tokens(&preview);
    assert_eq!(method, b"ONLYONE".to_vec());
    assert_eq!(target, Vec::<u8>::new());
}

#[test]
fn tunnel_target_splits_host_and_port() {
    let t = b"host.example:777".to_vec();
    let (host, port) = tunnel_target(&t);
    assert_eq!(host, b"host.example".to_vec());
    assert_eq!(port, b"777".to_vec());
}

#[test]
fn tunnel_target_empty_target() {
    let t = Vec::new();
    let (host, port) = tunnel_target(&t);
    assert_eq!(host, Vec::<u8>::new());
    assert_eq!(port, b"443".to_vec());
}

#[test]
fn plain_decision_takes_explicit_port() {
    let d = plain_decision(Some((b"h".to_vec(), Some(123))));
    assert_eq!(d, Decision::Forward { host: b"h".to_vec(), port: 123 });
}

#[test]
fn plain_decision_defaults_to_80() {
    let d = plain_decision(Some((b"h".to_vec(), None)));
    assert_eq!(d, Decision::Forward { host: b"h".to_vec(), port: 80 });
}

#[test]
fn plain_decision_without_host_is_no_action() {
    assert_eq!(plain_decision(None), Decision::NoAction);
}
