use conn_relay::client::{check_reply, check_request, close_reply, close_request, create_reply, create_request};
use conn_relay::error::{ErrorKind, RelayError};
use conn_relay::routes::{ConnectionId, ConnectionRoutes, EmptyState, Envelope, Routes, Url};
use conn_relay::wire::{body, decode, encode};

fn s(x: &str) -> String {
    x.to_string()
}

fn err(kind: ErrorKind, ctx: &str) -> RelayError {
    RelayError { kind, context: s(ctx) }
}

fn all_messages() -> Vec<Routes> {
    vec![
        Routes::Connection(ConnectionRoutes::Create(Envelope::Request(Url { url: s("db://host") }))),
        Routes::Connection(ConnectionRoutes::Create(Envelope::Response(ConnectionId { connection_id: s("00ab") }))),
        Routes::Connection(ConnectionRoutes::Create(Envelope::Failure(err(ErrorKind::Transport, "connection")))),
        Routes::Connection(ConnectionRoutes::Close(Envelope::Request(ConnectionId { connection_id: s("id-1") }))),
        Routes::Connection(ConnectionRoutes::Close(Envelope::Response(EmptyState))),
        Routes::Connection(ConnectionRoutes::Close(Envelope::Failure(err(ErrorKind::NotFound, "connection")))),
        Routes::Connection(ConnectionRoutes::Check(Envelope::Request(ConnectionId { connection_id: s("é:日本") }))),
        Routes::Connection(ConnectionRoutes::Check(Envelope::Response(true))),
        Routes::Connection(ConnectionRoutes::Check(Envelope::Response(false))),
        Routes::Connection(ConnectionRoutes::Check(Envelope::Failure(err(ErrorKind::UnknownTicket, "")))),
        Routes::Fault(err(ErrorKind::Serialization, "wire")),
        Routes::Fault(err(ErrorKind::MailboxClosed, "registry")),
        Routes::Fault(err(ErrorKind::IdsExhausted, "x")),
        Routes::Fault(err(ErrorKind::RouteMismatch, "route")),
    ]
}

#[test]
fn every_message_survives_a_round_trip() {
    for m in all_messages() {
        let frame = encode(&m).unwrap();
        assert_eq!(decode(&frame).unwrap(), m);
    }
}

#[test]
fn frame_has_hex_length_prefix() {
    let frame = create_request(s("ab")).unwrap();
    assert_eq!(frame, "00000005Coqab");
    let ack = encode(&Routes::Connection(ConnectionRoutes::Close(Envelope::Response(EmptyState)))).unwrap();
    assert_eq!(ack, "00000003Cxr");
    let yes = encode(&Routes::Connection(ConnectionRoutes::Check(Envelope::Response(true)))).unwrap();
    assert_eq!(yes, "00000004Ckr1");
    let fault = encode(&Routes::Fault(err(ErrorKind::Serialization, "wire"))).unwrap();
    assert_eq!(fault, "00000006Fswire");
}

#[test]
fn length_counts_characters() {
    let frame = check_request(s("é日")).unwrap();
    assert_eq!(frame, "00000005Ckqé日");
}

#[test]
fn long_prefix_is_hex() {
    let url: String = std::iter::repeat('u').take(300).collect();
    let frame = create_request(url.clone()).unwrap();
    assert!(frame.starts_with("0000012fCoq"));
    assert_eq!(body(&decode(&frame).unwrap()), format!("Coq{}", url));
}

#[test]
fn reply_of_wrong_operation_is_route_mismatch() {
    let close_ack = encode(&Routes::Connection(ConnectionRoutes::Close(Envelope::Response(EmptyState)))).unwrap();
    assert_eq!(create_reply(&close_ack), Err(err(ErrorKind::RouteMismatch, "route")));
    assert_eq!(check_reply(&close_ack), Err(err(ErrorKind::RouteMismatch, "route")));
    let created = encode(&Routes::Connection(ConnectionRoutes::Create(Envelope::Response(ConnectionId {
        connection_id: s("c"),
    }))))
    .unwrap();
    assert_eq!(close_reply(&created), Err(err(ErrorKind::RouteMismatch, "route")));
}

#[test]
fn request_read_as_reply_is_route_mismatch() {
    let req = create_request(s("db://host")).unwrap();
    assert_eq!(create_reply(&req), Err(err(ErrorKind::RouteMismatch, "route")));
}

#[test]
fn replies_carry_their_values() {
    let created = encode(&Routes::Connection(ConnectionRoutes::Create(Envelope::Response(ConnectionId {
        connection_id: s("abc"),
    }))))
    .unwrap();
    assert_eq!(create_reply(&created), Ok(s("abc")));
    let no = encode(&Routes::Connection(ConnectionRoutes::Check(Envelope::Response(false)))).unwrap();
    assert_eq!(check_reply(&no), Ok(false));
    let ack = encode(&Routes::Connection(ConnectionRoutes::Close(Envelope::Response(EmptyState)))).unwrap();
    assert_eq!(close_reply(&ack), Ok(EmptyState));
    let failed = encode(&Routes::Connection(ConnectionRoutes::Check(Envelope::Failure(err(
        ErrorKind::NotFound,
        "connection",
    )))))
    .unwrap();
    assert_eq!(check_reply(&failed), Err(err(ErrorKind::NotFound, "connection")));
    let fault = encode(&Routes::Fault(err(ErrorKind::Serialization, "wire"))).unwrap();
    assert_eq!(close_reply(&fault), Err(err(ErrorKind::Serialization, "wire")));
}

#[test]
fn truncated_frame_is_a_serialization_error() {
    let url: String = std::iter::repeat('x').take(2000).collect();
    let frame = create_request(url).unwrap();
    let first_read: String = frame.chars().take(1024).collect();
    assert_eq!(decode(&first_read), Err(err(ErrorKind::Serialization, "wire")));
    assert_eq!(create_reply(&first_read), Err(err(ErrorKind::Serialization, "wire")));
}

#[test]
fn malformed_frames_are_serialization_errors() {
    for bad in ["", "0000", "00000003Cxq1", "0000000gCxr", "00000003Czr", "00000003Cxz", "00000004Ckr2", "00000001F", "00000002Fz", "00000004Cxre", "00000003Dxr", "00000003cxr"] {
        assert_eq!(decode(&s(bad)), Err(err(ErrorKind::Serialization, "wire")), "{}", bad);
    }
}

#[test]
fn uppercase_hex_prefix_is_refused() {
    let url: String = std::iter::repeat('u').take(10).collect();
    let frame = create_request(url).unwrap();
    assert!(frame.starts_with("0000000d"));
    let upper = frame.replacen("0000000d", "0000000D", 1);
    assert_eq!(decode(&upper), Err(err(ErrorKind::Serialization, "wire")));
}

#[test]
fn requests_name_their_operation() {
    assert_eq!(close_request(s("id7")).unwrap(), "00000006Cxqid7");
    assert_eq!(check_request(s("id7")).unwrap(), "00000006Ckqid7");
}

#[test]
fn error_description_has_label() {
    assert_eq!(err(ErrorKind::Serialization, "wire").describe(), "wire: malformed message");
    assert_eq!(RelayError::new(ErrorKind::NotFound, "connection").describe(), "connection: not found");
}

#[test]
fn envelope_unpack() {
    let e: Envelope<Url, bool> = Envelope::Response(true);
    assert_eq!(e.unpack(), Ok(true));
    let e: Envelope<Url, bool> = Envelope::package(Url { url: s("u") });
    assert_eq!(e.unpack(), Err(err(ErrorKind::RouteMismatch, "route")));
    let e: Envelope<Url, bool> = Envelope::Failure(err(ErrorKind::Transport, "t"));
    assert_eq!(e.unpack(), Err(err(ErrorKind::Transport, "t")));
}
