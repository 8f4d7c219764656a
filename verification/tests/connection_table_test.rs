use axum::extract::ws::Message;
use tokio::sync::mpsc::unbounded_channel;
use tokio_util::sync::CancellationToken;
use web_client::connection_table::ConnectionTable;

fn table_of(clients: &[(&str, Option<&str>)]) -> ConnectionTable<u32> {
    let mut table = ConnectionTable::new();
    let mut api = 0;
    for (client, session) in clients {
        table.add_new_client(client.to_string(), api);
        api += 1;
        if let Some(session) = session {
            table.set_client_session(client, session.to_string());
        }
    }
    table
}

#[test]
fn clients_are_found_by_id() {
    let table = table_of(&[("a", None), ("b", None)]);
    assert_eq!(table.get_client_os_api("a"), Some(&0));
    assert_eq!(table.get_client_os_api("b"), Some(&1));
    assert_eq!(table.get_client_os_api("c"), None);
}

#[test]
fn adding_a_client_again_drops_its_channels_but_keeps_its_session() {
    let mut table = table_of(&[("a", Some("s")), ("b", Some("s"))]);
    let (tx, _rx) = unbounded_channel();
    table.add_client_terminal_tx("a", tx);
    assert!(table.get_client_terminal_tx("a").is_some());
    table.add_new_client("a".to_owned(), 7);
    assert_eq!(table.get_client_os_api("a"), Some(&7));
    assert!(table.get_client_terminal_tx("a").is_none());
    assert_eq!(table.claim_session_size_owner("b"), 1);
    assert!(!table.resize_allowed("a"));
}

#[test]
fn channels_lead_to_their_receivers() {
    let mut table = table_of(&[("a", None)]);
    let (control_tx, mut control_rx) = unbounded_channel();
    let (terminal_tx, mut terminal_rx) = unbounded_channel();
    assert!(table.get_client_control_tx("a").is_none());
    assert!(table.get_client_terminal_tx("a").is_none());
    table.add_client_control_tx("a", control_tx.clone());
    table.add_client_terminal_tx("a", terminal_tx.clone());
    let control = table.get_client_control_tx("a").unwrap();
    let terminal = table.get_client_terminal_tx("a").unwrap();
    assert!(control.same_channel(&control_tx));
    assert!(terminal.same_channel(&terminal_tx));
    control.send(Message::Text("c".into())).unwrap();
    terminal.send("t".to_owned()).unwrap();
    assert_eq!(control_rx.try_recv().unwrap(), Message::Text("c".into()));
    assert_eq!(terminal_rx.try_recv().unwrap(), "t");
}

#[test]
fn channels_of_unknown_clients_are_passed_over() {
    let mut table = table_of(&[("a", None)]);
    let (control_tx, _control_rx) = unbounded_channel();
    let (terminal_tx, _terminal_rx) = unbounded_channel();
    table.add_client_control_tx("b", control_tx);
    table.add_client_terminal_tx("b", terminal_tx);
    table.add_client_terminal_channel_cancellation_token("b", CancellationToken::new());
    assert!(table.get_client_os_api("b").is_none());
    assert!(table.get_client_control_tx("b").is_none());
    assert!(table.get_client_terminal_tx("b").is_none());
    assert!(table.get_client_control_tx("a").is_none());
}

#[test]
fn claim_counts_the_other_clients_of_the_session() {
    let mut table = table_of(&[
        ("a", Some("s")),
        ("b", Some("s")),
        ("c", Some("s")),
        ("d", Some("t")),
        ("e", None),
    ]);
    assert_eq!(table.claim_session_size_owner("a"), 2);
    assert_eq!(table.claim_session_size_owner("d"), 0);
    assert_eq!(table.claim_session_size_owner("e"), 0);
    assert_eq!(table.claim_session_size_owner("nobody"), 0);
}

#[test]
fn everyone_may_resize_without_an_owner() {
    let table = table_of(&[("a", Some("s")), ("b", Some("s")), ("c", None)]);
    assert!(table.resize_allowed("a"));
    assert!(table.resize_allowed("b"));
    assert!(table.resize_allowed("c"));
    assert!(table.resize_allowed("nobody"));
}

#[test]
fn only_the_owner_may_resize_its_session() {
    let mut table = table_of(&[("a", Some("s")), ("b", Some("s")), ("c", Some("t"))]);
    table.claim_session_size_owner("a");
    assert!(table.resize_allowed("a"));
    assert!(!table.resize_allowed("b"));
    assert!(table.resize_allowed("c"));
    // Nobody was detached.
    assert!(table.get_client_os_api("b").is_some());
    // The later claim counts.
    table.claim_session_size_owner("b");
    assert!(!table.resize_allowed("a"));
    assert!(table.resize_allowed("b"));
}

#[test]
fn a_client_that_joins_later_mirrors_the_owner() {
    let mut table = table_of(&[("a", Some("s"))]);
    table.claim_session_size_owner("a");
    table.add_new_client("b".to_owned(), 9);
    assert!(table.resize_allowed("b"));
    table.set_client_session("b", "s".to_owned());
    assert!(!table.resize_allowed("b"));
    table.set_client_session("b", "t".to_owned());
    assert!(table.resize_allowed("b"));
}

#[test]
fn removing_the_owner_lets_the_others_resize() {
    let mut table = table_of(&[("a", Some("s")), ("b", Some("s")), ("c", Some("s"))]);
    table.claim_session_size_owner("a");
    table.remove_client("c");
    assert!(!table.resize_allowed("b"));
    table.remove_client("a");
    assert!(table.resize_allowed("b"));
    assert!(table.get_client_os_api("a").is_none());
    assert_eq!(table.claim_session_size_owner("b"), 0);
}

#[test]
fn removing_a_client_cancels_its_rendering_task() {
    let mut table = table_of(&[("a", None), ("b", None)]);
    let token_a = CancellationToken::new();
    let token_b = CancellationToken::new();
    table.add_client_terminal_channel_cancellation_token("a", token_a.clone());
    table.add_client_terminal_channel_cancellation_token("b", token_b.clone());
    assert!(!token_a.is_cancelled());
    let removed = table.remove_client("a").unwrap();
    assert!(removed.cancelled.is_some());
    assert_eq!(removed.channels.os_api, 0);
    assert!(removed.channels.terminal_channel_cancellation_token.is_none());
    assert!(token_a.is_cancelled());
    assert!(!token_b.is_cancelled());
    assert!(table.remove_client("a").is_none());
}

#[test]
fn removing_a_client_drops_its_channels() {
    let mut table = table_of(&[("a", None)]);
    let (tx, rx) = unbounded_channel();
    table.add_client_terminal_tx("a", tx);
    assert!(table.remove_client("a").unwrap().cancelled.is_none());
    assert!(table.get_client_terminal_tx("a").is_none());
    assert_eq!(rx.sender_strong_count(), 0);
}
