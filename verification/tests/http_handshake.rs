//! HTTP CONNECT handshakes: request and response heads, the server's
//! policy table, head framing and its size cap.

use proxy_handshake::leo::client::{evaluate_response, Builder as ClientBuilder};
use proxy_handshake::leo::codec::{
    canonical_reason, encode_response, parse_request, parse_response, HeadReader,
};
use proxy_handshake::leo::server::Builder as ServerBuilder;
use proxy_handshake::leo::Error;

#[test]
fn connect_success() {
    let client = ClientBuilder::default().set_host_port("example.com".to_string(), 443);
    let request = client.start().unwrap();
    assert_eq!(
        request,
        b"CONNECT example.com:443 HTTP/1.1\r\nHost: example.com:443\r\n\r\n".to_vec()
    );

    let server = ServerBuilder::default();
    let (response, outcome) = server.respond(&request).unwrap();
    assert_eq!(response, b"HTTP/1.1 200 OK\r\n\r\n".to_vec());
    assert_eq!(outcome.unwrap(), "example.com:443".to_string());

    assert!(evaluate_response(&response).is_ok());
}

#[test]
fn auth_required_writes_407_challenge() {
    let server = ServerBuilder::default().set_authorization("alice", "secret");
    let request = b"CONNECT example.com:443 HTTP/1.1\r\nHost: example.com:443\r\n\r\n".to_vec();
    let (response, outcome) = server.respond(&request).unwrap();
    assert_eq!(
        response,
        b"HTTP/1.1 407 Proxy Authentication Required\r\nProxy-Authenticate: Basic realm=Proxy Server\r\n\r\n"
            .to_vec()
    );
    assert!(matches!(outcome, Err(Error::HttpStatus("Proxy Authentication Required"))));
}

#[test]
fn auth_accepted_with_correct_value() {
    let server = ServerBuilder::default().set_authorization("alice", "secret");
    let request = b"CONNECT example.com:443 HTTP/1.1\r\nHost: example.com:443\r\nProxy-Authorization: Basic YWxpY2U6c2VjcmV0\r\n\r\n".to_vec();
    let (response, outcome) = server.respond(&request).unwrap();
    assert_eq!(response, b"HTTP/1.1 200 OK\r\n\r\n".to_vec());
    assert_eq!(outcome.unwrap(), "example.com:443".to_string());
}

#[test]
fn auth_mismatch_gets_401() {
    let server = ServerBuilder::default().set_authorization("alice", "secret");
    let request = b"CONNECT e:1 HTTP/1.1\r\nHost: e:1\r\nProxy-Authorization: Basic d3Jvbmc=\r\n\r\n"
        .to_vec();
    let (response, outcome) = server.respond(&request).unwrap();
    assert_eq!(response, b"HTTP/1.1 401 Unauthorized\r\n\r\n".to_vec());
    assert!(matches!(outcome, Err(Error::HttpStatus("Unauthorized"))));
}

#[test]
fn client_sends_basic_authorization() {
    let client = ClientBuilder::default()
        .set_authorization("alice", "secret")
        .set_host_port("example.com".to_string(), 443);
    let request = client.start().unwrap();
    assert_eq!(
        request,
        b"CONNECT example.com:443 HTTP/1.1\r\nHost: example.com:443\r\nProxy-Authorization: Basic YWxpY2U6c2VjcmV0\r\n\r\n"
            .to_vec()
    );
    let server = ServerBuilder::default().set_authorization("alice", "secret");
    let (_, outcome) = server.respond(&request).unwrap();
    assert!(outcome.is_ok());
}

#[test]
fn wrong_method_gets_405() {
    let server = ServerBuilder::default();
    let request = b"GET / HTTP/1.1\r\nHost: example.com\r\n\r\n".to_vec();
    let (response, outcome) = server.respond(&request).unwrap();
    assert_eq!(response, b"HTTP/1.1 405 Method Not Allowed\r\n\r\n".to_vec());
    assert!(matches!(outcome, Err(Error::HttpStatus("Method Not Allowed"))));
}

#[test]
fn wrong_version_gets_505() {
    let server = ServerBuilder::default();
    let request = b"CONNECT example.com:443 HTTP/1.0\r\nHost: example.com:443\r\n\r\n".to_vec();
    let (response, outcome) = server.respond(&request).unwrap();
    assert_eq!(response, b"HTTP/1.1 505 HTTP Version Not Supported\r\n\r\n".to_vec());
    assert!(matches!(outcome, Err(Error::HttpStatus("HTTP Version Not Supported"))));
}

#[test]
fn missing_host_fails_after_200() {
    let server = ServerBuilder::default();
    let request = b"CONNECT example.com:443 HTTP/1.1\r\n\r\n".to_vec();
    let (response, outcome) = server.respond(&request).unwrap();
    assert_eq!(response, b"HTTP/1.1 200 OK\r\n\r\n".to_vec());
    assert!(matches!(outcome, Err(Error::Http("non host"))));
}

#[test]
fn malformed_head_is_answered_with_nothing() {
    let server = ServerBuilder::default();
    let request = b"nonsense\r\n\r\n".to_vec();
    assert!(matches!(server.respond(&request), Err(Error::Http("malformed http head"))));
}

#[test]
fn header_line_without_colon_is_malformed() {
    let request = b"CONNECT e:1 HTTP/1.1\r\nno colon here\r\n\r\n".to_vec();
    assert!(parse_request(&request, None).is_err());
    let request = b"CONNECT e:1 HTTP/1.1\r\n: empty name\r\n\r\n".to_vec();
    assert!(parse_request(&request, None).is_err());
}

#[test]
fn header_names_match_case_insensitively() {
    let request = b"CONNECT e:1 HTTP/1.1\r\nhOsT:   e:1  \r\n\r\n".to_vec();
    let (status, host) = parse_request(&request, None).unwrap();
    assert_eq!(status, 200);
    assert_eq!(host, Some(b"e:1".to_vec()));
}

#[test]
fn first_host_header_wins() {
    let request = b"CONNECT e:1 HTTP/1.1\r\nHost: first\r\nHost: second\r\n\r\n".to_vec();
    let (_, host) = parse_request(&request, None).unwrap();
    assert_eq!(host, Some(b"first".to_vec()));
}

#[test]
fn response_judgement() {
    assert!(evaluate_response(&b"HTTP/1.1 204 No Content\r\n\r\n".to_vec()).is_ok());
    assert!(matches!(
        evaluate_response(&b"HTTP/1.1 404 Not Found\r\n\r\n".to_vec()),
        Err(Error::HttpStatus("Not Found"))
    ));
    assert!(matches!(
        evaluate_response(&b"HTTP/1.0 200 OK\r\n\r\n".to_vec()),
        Err(Error::HttpStatus("non status code"))
    ));
    assert!(matches!(
        evaluate_response(&b"FTP ahoy\r\n\r\n".to_vec()),
        Err(Error::Http("malformed http head"))
    ));
}

#[test]
fn response_tolerates_bare_lf_terminator() {
    assert!(evaluate_response(&b"HTTP/1.1 200 OK\n\n".to_vec()).is_ok());
    let mut reader = HeadReader::new(true);
    assert_eq!(reader.push(&b"HTTP/1.1 200 OK\n\n".to_vec()).unwrap(), true);
}

#[test]
fn parse_response_reads_code() {
    assert_eq!(parse_response(&b"HTTP/1.1 503 Anything goes\r\n\r\n".to_vec()).unwrap(), Some(503));
    assert_eq!(parse_response(&b"HTTP/1.1 200\r\n\r\n".to_vec()).unwrap(), Some(200));
    assert_eq!(parse_response(&b"HTTP/1.9 200 OK\r\n\r\n".to_vec()).unwrap(), None);
    assert_eq!(parse_response(&b"HTTP/1.1 099 Low\r\n\r\n".to_vec()).unwrap(), None);
}

#[test]
fn head_reader_splits_head_and_payload() {
    let mut reader = HeadReader::new(false);
    assert_eq!(reader.push(&b"CONNECT e:1 HTTP/1.1\r\nHost".to_vec()).unwrap(), false);
    assert_eq!(reader.push(&b": e:1\r\n\r\nPAYLOAD".to_vec()).unwrap(), true);
    let (head, rest) = reader.take();
    assert_eq!(head, b"CONNECT e:1 HTTP/1.1\r\nHost: e:1\r\n\r\n".to_vec());
    assert_eq!(rest, b"PAYLOAD".to_vec());
}

#[test]
fn head_cap_fails_oversized_heads() {
    let mut reader = HeadReader::new(false);
    let chunk = vec![b'a'; 4096];
    assert_eq!(reader.push(&chunk).unwrap(), false);
    assert!(matches!(reader.push(&chunk), Err(Error::Http("head too large"))));
}

#[test]
fn head_cap_allows_head_at_the_cap() {
    let mut reader = HeadReader::new(false);
    let mut head = b"CONNECT e:1 HTTP/1.1\r\nHost: e:1\r\nX: ".to_vec();
    while head.len() < 8188 {
        head.push(b'y');
    }
    head.extend_from_slice(b"\r\n\r\n");
    assert_eq!(head.len(), 8192);
    assert_eq!(reader.push(&head).unwrap(), true);
}

#[test]
fn canonical_reason_table() {
    assert_eq!(canonical_reason(200), Some("OK"));
    assert_eq!(canonical_reason(407), Some("Proxy Authentication Required"));
    assert_eq!(canonical_reason(418), Some("I'm a teapot"));
    assert_eq!(canonical_reason(599), None);
}

#[test]
fn encode_response_exact_bytes() {
    let mut buf = Vec::new();
    encode_response(502, &mut buf);
    assert_eq!(buf, b"HTTP/1.1 502 Bad Gateway\r\n\r\n".to_vec());
}

#[test]
fn client_without_destination_fails() {
    let client = ClientBuilder::default();
    assert!(matches!(client.start(), Err(Error::Http("host and port required"))));
}
