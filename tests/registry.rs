use conn_relay::error::ErrorKind;
use conn_relay::registry::{checkout_result, release_result, CheckoutTicket, Command, Registry, Reply};

fn s(x: &str) -> String {
    x.to_string()
}

#[test]
fn checkout_is_exclusive_until_returned() {
    let mut reg: Registry<String> = Registry::new();
    reg.insert(s("c1"), s("R"));
    let ticket = reg.get(&s("c1")).expect("first checkout");
    assert_eq!(ticket.id, "c1");
    assert_eq!(ticket.resource, "R");
    assert!(matches!(reg.get(&s("c1")), Err(ErrorKind::NotFound)));
    assert!(reg.give_back(ticket).is_ok());
    let again = reg.get(&s("c1")).expect("checkout after return");
    assert_eq!(again.resource, "R");
}

#[test]
fn insert_then_get_returns_the_resource() {
    let mut reg: Registry<u32> = Registry::new();
    reg.insert(s("k"), 7);
    let t = reg.get(&s("k")).unwrap();
    assert_eq!(t.resource, 7);
    assert!(matches!(reg.get(&s("k")), Err(ErrorKind::NotFound)));
}

#[test]
fn return_makes_id_available_again() {
    let mut reg: Registry<u32> = Registry::new();
    reg.insert(s("a"), 1);
    reg.insert(s("b"), 2);
    let t = reg.get(&s("b")).unwrap();
    assert!(!reg.is_available(&s("b")));
    assert!(reg.is_available(&s("a")));
    assert!(reg.give_back(t).is_ok());
    assert!(reg.is_available(&s("b")));
    assert_eq!(reg.get(&s("b")).unwrap().resource, 2);
}

#[test]
fn get_of_unknown_id_is_not_found() {
    let mut reg: Registry<u32> = Registry::new();
    assert!(matches!(reg.get(&s("missing")), Err(ErrorKind::NotFound)));
}

#[test]
fn return_without_checkout_is_unknown_ticket() {
    let mut reg: Registry<u32> = Registry::new();
    let t = CheckoutTicket { id: s("x"), resource: 3 };
    match reg.give_back(t) {
        Err((kind, back)) => {
            assert_eq!(kind, ErrorKind::UnknownTicket);
            assert_eq!(back.id, "x");
            assert_eq!(back.resource, 3);
        }
        Ok(()) => panic!("expected a refusal"),
    }
    reg.insert(s("y"), 4);
    let t2 = CheckoutTicket { id: s("y"), resource: 5 };
    match reg.give_back(t2) {
        Err((kind, back)) => {
            assert_eq!(kind, ErrorKind::UnknownTicket);
            assert_eq!(back.resource, 5);
        }
        Ok(()) => panic!("expected a refusal"),
    }
    assert_eq!(reg.get(&s("y")).unwrap().resource, 4);
}

#[test]
fn insert_overwrites_previous_entry() {
    let mut reg: Registry<u32> = Registry::new();
    reg.insert(s("k"), 1);
    reg.insert(s("k"), 2);
    assert_eq!(reg.get(&s("k")).unwrap().resource, 2);
}

#[test]
fn remove_deletes_entry() {
    let mut reg: Registry<u32> = Registry::new();
    reg.insert(s("k"), 9);
    assert_eq!(reg.remove(&s("k")), Ok(9));
    assert_eq!(reg.remove(&s("k")), Err(ErrorKind::NotFound));
    assert!(matches!(reg.get(&s("k")), Err(ErrorKind::NotFound)));
}

#[test]
fn remove_of_checked_out_entry_is_not_found() {
    let mut reg: Registry<u32> = Registry::new();
    reg.insert(s("k"), 9);
    let t = reg.get(&s("k")).unwrap();
    assert_eq!(reg.remove(&s("k")), Err(ErrorKind::NotFound));
    assert!(reg.give_back(t).is_ok());
    assert_eq!(reg.remove(&s("k")), Ok(9));
}

#[test]
fn commands_apply_in_order() {
    let mut reg: Registry<u32> = Registry::new();
    assert!(matches!(reg.apply(Command::Insert(s("c"), 5)), Reply::Done));
    let t = match reg.apply(Command::Get(s("c"))) {
        Reply::Ticket(t) => t,
        _ => panic!("expected a ticket"),
    };
    assert_eq!(t.resource, 5);
    assert!(matches!(reg.apply(Command::Get(s("c"))), Reply::Failed(ErrorKind::NotFound)));
    assert!(matches!(reg.apply(Command::Remove(s("c"))), Reply::Failed(ErrorKind::NotFound)));
    let stale = CheckoutTicket { id: s("d"), resource: 8 };
    match reg.apply(Command::Return(stale)) {
        Reply::Refused(ErrorKind::UnknownTicket, back) => assert_eq!(back.resource, 8),
        _ => panic!("expected a refusal"),
    }
    assert!(matches!(reg.apply(Command::Return(t)), Reply::Done));
    assert!(matches!(reg.apply(Command::Remove(s("c"))), Reply::Removed(5)));
    assert!(matches!(reg.apply(Command::Remove(s("c"))), Reply::Failed(ErrorKind::NotFound)));
}

#[test]
fn checkout_and_release_results_carry_the_label() {
    let t = CheckoutTicket { id: s("c"), resource: 1u32 };
    let ok = checkout_result(Reply::Ticket(t), "CONNECTION_ACTOR").unwrap();
    assert_eq!(ok.resource, 1);
    let e = checkout_result::<u32>(Reply::Failed(ErrorKind::NotFound), "CONNECTION_ACTOR").err().unwrap();
    assert_eq!(e.kind, ErrorKind::NotFound);
    assert_eq!(e.describe(), "CONNECTION_ACTOR: not found");
    let e = checkout_result::<u32>(Reply::Done, "L").err().unwrap();
    assert_eq!(e.kind, ErrorKind::RouteMismatch);
    assert!(release_result::<u32>(Reply::Done, "L").is_ok());
    let back = CheckoutTicket { id: s("c"), resource: 4u32 };
    let (e, t) = release_result(Reply::Refused(ErrorKind::UnknownTicket, back), "L").err().unwrap();
    assert_eq!(e.describe(), "L: unknown ticket");
    assert_eq!(t.unwrap().resource, 4);
    let (e, t) = release_result::<u32>(Reply::Failed(ErrorKind::MailboxClosed), "L").err().unwrap();
    assert_eq!(e.describe(), "L: registry closed");
    assert!(t.is_none());
}
