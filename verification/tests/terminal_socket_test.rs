use tokio_util::sync::CancellationToken;
use web_client::connection_table::ConnectionTable;
use web_client::control_socket::ClientToServerMsg;
use web_client::terminal_socket::{
    explicitly_disable_kitty_keyboard_protocol, TerminalAction, TerminalEvent, TerminalSocket,
};

type Action<'a> = TerminalAction<'a, u32, (u16, u16), u32>;

fn open_on(
    table: &mut ConnectionTable<u32>,
    client: &str,
    session: Option<&str>,
) -> Option<TerminalSocket<u32>> {
    TerminalSocket::open(table, client.to_owned(), session.map(|s| s.to_owned()))
        .map(|(socket, _rx)| socket)
}

#[test]
fn opening_attaches_the_client_to_its_session() {
    let mut table = ConnectionTable::new();
    table.add_new_client("a".to_owned(), 1);
    table.add_new_client("b".to_owned(), 2);
    table.add_new_client("c".to_owned(), 3);
    assert!(open_on(&mut table, "a", Some("s")).is_some());
    assert!(open_on(&mut table, "b", Some("s")).is_some());
    assert!(open_on(&mut table, "c", None).is_some());
    assert!(table.get_client_terminal_tx("a").is_some());
    assert!(table.get_client_terminal_tx("c").is_some());
    assert_eq!(table.claim_session_size_owner("a"), 1);
    assert!(!table.resize_allowed("b"));
    assert!(table.resize_allowed("c"));
}

#[test]
fn output_comes_out_of_the_opened_socket() {
    let mut table = ConnectionTable::new();
    table.add_new_client("a".to_owned(), 1);
    let (socket, mut rx) = TerminalSocket::open(&mut table, "a".to_owned(), None).unwrap();
    assert_eq!(socket.web_client_id, "a");
    assert!(rx.try_recv().is_err());
    table
        .get_client_terminal_tx("a")
        .unwrap()
        .send("$ ".to_owned())
        .unwrap();
    assert_eq!(rx.try_recv().unwrap(), "$ ");
}

#[test]
fn opening_fails_for_an_unknown_client() {
    let mut table: ConnectionTable<u32> = ConnectionTable::new();
    assert!(open_on(&mut table, "a", Some("s")).is_none());
    assert_eq!(table.claim_session_size_owner("a"), 0);
    assert!(table.get_client_terminal_tx("a").is_none());
}

#[test]
fn text_is_input_while_the_client_is_known() {
    let mut table = ConnectionTable::new();
    table.add_new_client("a".to_owned(), 1);
    let socket = open_on(&mut table, "a", None).unwrap();
    let action: Action = socket.handle(&mut table, TerminalEvent::Text("ls\n".to_owned()));
    match action {
        TerminalAction::ParseStdin(text) => assert_eq!(text, "ls\n"),
        _ => panic!("not read as input"),
    }
    table.remove_client("a");
    let action: Action = socket.handle(&mut table, TerminalEvent::Text("ls\n".to_owned()));
    assert!(matches!(action, TerminalAction::UnknownClient));
}

#[test]
fn closing_removes_the_client() {
    let mut table = ConnectionTable::new();
    table.add_new_client("a".to_owned(), 1);
    table.add_new_client("b".to_owned(), 2);
    let socket = open_on(&mut table, "a", Some("s")).unwrap();
    open_on(&mut table, "b", Some("s")).unwrap();
    let token = CancellationToken::new();
    table.add_client_terminal_channel_cancellation_token("a", token.clone());
    table.claim_session_size_owner("a");
    let action: Action = socket.handle(&mut table, TerminalEvent::Close);
    match action {
        TerminalAction::Exit(os_api, ClientToServerMsg::ClientExited, Some(removed)) => {
            assert_eq!(*os_api, 1);
            assert!(removed.cancelled.is_some());
        },
        _ => panic!("no exit"),
    }
    assert!(token.is_cancelled());
    assert!(table.get_client_os_api("a").is_none());
    assert!(table.resize_allowed("b"));
}

#[test]
fn the_exit_goes_over_the_connection_at_the_opening() {
    let mut table = ConnectionTable::new();
    table.add_new_client("a".to_owned(), 1);
    let socket = open_on(&mut table, "a", None).unwrap();
    table.add_new_client("a".to_owned(), 2);
    let action: Action = socket.handle(&mut table, TerminalEvent::Close);
    assert!(matches!(
        action,
        TerminalAction::Exit(&1, ClientToServerMsg::ClientExited, Some(_))
    ));
}

#[test]
fn the_rendering_token_is_the_one_recorded() {
    let mut table = ConnectionTable::new();
    table.add_new_client("a".to_owned(), 1);
    let socket = open_on(&mut table, "a", None).unwrap();
    let token = socket.start_rendering(&mut table);
    assert!(!token.is_cancelled());
    table.remove_client("a");
    assert!(token.is_cancelled());
    let late = socket.start_rendering(&mut table);
    assert!(!late.is_cancelled());
    assert!(table.get_client_os_api("a").is_none());
}

#[test]
fn a_socket_that_ends_keeps_the_client() {
    let mut table = ConnectionTable::new();
    table.add_new_client("a".to_owned(), 1);
    let socket = open_on(&mut table, "a", None).unwrap();
    let action: Action = socket.handle(&mut table, TerminalEvent::Unsupported);
    assert!(matches!(action, TerminalAction::ReportUnsupported));
    let action: Action = socket.handle(&mut table, TerminalEvent::Ended);
    assert!(matches!(
        action,
        TerminalAction::Exit(&1, ClientToServerMsg::ClientExited, None)
    ));
    assert!(table.get_client_os_api("a").is_some());
}

#[test]
fn kitty_protocol_is_disabled_only_on_request() {
    assert!(!explicitly_disable_kitty_keyboard_protocol(None));
    assert!(!explicitly_disable_kitty_keyboard_protocol(Some(true)));
    assert!(explicitly_disable_kitty_keyboard_protocol(Some(false)));
}
