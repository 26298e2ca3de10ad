use conn_relay::client::{check_reply, check_request, close_reply, close_request, create_reply, create_request};
use conn_relay::dispatch::{Action, Dispatcher};
use conn_relay::error::{ErrorKind, RelayError};
use conn_relay::protocol::{split_url, ConnectProtocol};
use conn_relay::registry::CheckoutTicket;
use conn_relay::routes::EmptyState;

fn s(x: &str) -> String {
    x.to_string()
}

fn err(kind: ErrorKind, ctx: &str) -> RelayError {
    RelayError { kind, context: s(ctx) }
}

fn reply_of(a: Action<String>) -> String {
    match a {
        Action::Reply(t) => t,
        _ => panic!("expected a reply"),
    }
}

fn open(d: &mut Dispatcher<String>, url: &str, conn: &str) -> String {
    let req = create_request(s(url)).unwrap();
    match d.handle(&req) {
        Action::Open(u) => assert_eq!(u, url),
        _ => panic!("expected an open"),
    }
    create_reply(&d.opened(Some(s(conn)))).unwrap()
}

#[test]
fn create_check_close_then_check_again() {
    let mut d: Dispatcher<String> = Dispatcher::new();
    let id = open(&mut d, "db://host", "session");
    assert_eq!(id, "0000000000000000");

    let ticket = match d.handle(&check_request(id.clone()).unwrap()) {
        Action::Probe(t) => t,
        _ => panic!("expected a probe"),
    };
    assert_eq!(ticket.id, id);
    assert_eq!(ticket.resource, "session");
    assert_eq!(check_reply(&d.probed(ticket, true).0), Ok(true));

    let (res, frame) = match d.handle(&close_request(id.clone()).unwrap()) {
        Action::Release(r, f) => (r, f),
        _ => panic!("expected a release"),
    };
    assert_eq!(res, "session");
    assert_eq!(close_reply(&frame), Ok(EmptyState));

    let after = reply_of(d.handle(&check_request(id).unwrap()));
    assert_eq!(check_reply(&after), Err(err(ErrorKind::NotFound, "connection")));
}

#[test]
fn ids_are_fresh() {
    let mut d: Dispatcher<String> = Dispatcher::new();
    let a = open(&mut d, "ws://a", "A");
    let b = open(&mut d, "ws://b", "B");
    assert_eq!(a, "0000000000000000");
    assert_eq!(b, "0000000000000001");
}

#[test]
fn failed_open_is_a_transport_error() {
    let mut d: Dispatcher<String> = Dispatcher::new();
    assert_eq!(create_reply(&d.opened(None)), Err(err(ErrorKind::Transport, "connection")));
}

#[test]
fn close_of_unknown_id_is_not_found() {
    let mut d: Dispatcher<String> = Dispatcher::new();
    let r = reply_of(d.handle(&close_request(s("nope")).unwrap()));
    assert_eq!(close_reply(&r), Err(err(ErrorKind::NotFound, "connection")));
}

#[test]
fn check_while_checked_out_is_not_found() {
    let mut d: Dispatcher<String> = Dispatcher::new();
    let id = open(&mut d, "ws://a", "A");
    let t = match d.handle(&check_request(id.clone()).unwrap()) {
        Action::Probe(t) => t,
        _ => panic!("expected a probe"),
    };
    let r = reply_of(d.handle(&check_request(id.clone()).unwrap()));
    assert_eq!(check_reply(&r), Err(err(ErrorKind::NotFound, "connection")));
    assert_eq!(check_reply(&d.probed(t, false).0), Ok(false));
}

#[test]
fn close_while_checked_out_is_not_found() {
    let mut d: Dispatcher<String> = Dispatcher::new();
    let id = open(&mut d, "ws://a", "A");
    let t = match d.handle(&check_request(id.clone()).unwrap()) {
        Action::Probe(t) => t,
        _ => panic!("expected a probe"),
    };
    let r = reply_of(d.handle(&close_request(id.clone()).unwrap()));
    assert_eq!(close_reply(&r), Err(err(ErrorKind::NotFound, "connection")));
    let (frame, back) = d.probed(t, true);
    assert_eq!(check_reply(&frame), Ok(true));
    assert!(back.is_none());
    match d.handle(&close_request(id).unwrap()) {
        Action::Release(res, f) => {
            assert_eq!(res, "A");
            assert_eq!(close_reply(&f), Ok(EmptyState));
        }
        _ => panic!("expected a release"),
    }
}

#[test]
fn refused_probe_ticket_is_handed_back() {
    let mut d: Dispatcher<String> = Dispatcher::new();
    let stale = CheckoutTicket { id: s("0000000000000009"), resource: s("Z") };
    let (frame, back) = d.probed(stale, true);
    assert_eq!(check_reply(&frame), Err(err(ErrorKind::UnknownTicket, "connection")));
    assert_eq!(back, Some(s("Z")));
}

#[test]
fn malformed_request_gets_fault_reply() {
    let mut d: Dispatcher<String> = Dispatcher::new();
    let r = reply_of(d.handle(&s("garbage")));
    assert_eq!(r, "00000006Fswire");
    assert_eq!(check_reply(&r), Err(err(ErrorKind::Serialization, "wire")));
}

#[test]
fn oversized_request_cut_by_a_fixed_buffer_is_rejected() {
    let mut d: Dispatcher<String> = Dispatcher::new();
    let url: String = std::iter::repeat('h').take(1500).collect();
    let frame = create_request(url).unwrap();
    let cut: String = frame.chars().take(1024).collect();
    let r = reply_of(d.handle(&cut));
    assert_eq!(create_reply(&r), Err(err(ErrorKind::Serialization, "wire")));
}

#[test]
fn response_sent_as_request_is_route_mismatch() {
    let mut d: Dispatcher<String> = Dispatcher::new();
    let r = reply_of(d.handle(&s("00000004Ckr1")));
    assert_eq!(check_reply(&r), Err(err(ErrorKind::RouteMismatch, "route")));
    let r = reply_of(d.handle(&s("00000006Fswire")));
    assert_eq!(create_reply(&r), Err(err(ErrorKind::RouteMismatch, "route")));
}

#[test]
fn protocol_from_string_ignores_case() {
    assert_eq!(ConnectProtocol::from_string(s("ws")), Ok(ConnectProtocol::WS));
    assert_eq!(ConnectProtocol::from_string(s("Http")), Ok(ConnectProtocol::HTTP));
    assert_eq!(ConnectProtocol::from_string(s("WS")), Ok(ConnectProtocol::WS));
}

#[test]
fn protocol_from_string_rejects_unknown() {
    assert_eq!(ConnectProtocol::from_string(s("ftp")), Err(s("Invalid protocol: ftp")));
    assert_eq!(ConnectProtocol::from_uppercased(&s("HTTP"), &s("http")), Ok(ConnectProtocol::HTTP));
    assert_eq!(ConnectProtocol::from_uppercased(&s("http"), &s("http")), Err(s("Invalid protocol: http")));
}

#[test]
fn url_splits_at_first_colon() {
    assert_eq!(split_url(&s("ws://localhost:8000")), Some((s("ws"), s("localhost:8000"))));
    assert_eq!(split_url(&s("db://host")), Some((s("db"), s("host"))));
    assert_eq!(split_url(&s("http://")), Some((s("http"), s(""))));
    assert_eq!(split_url(&s("localhost:8000")), None);
    assert_eq!(split_url(&s("ws:/x")), None);
    assert_eq!(split_url(&s("host")), None);
}
