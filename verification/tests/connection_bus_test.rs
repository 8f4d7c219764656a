use axum::extract::ws::{close_code, CloseFrame, Message};
use tokio::sync::mpsc::unbounded_channel;
use tokio_util::sync::CancellationToken;
use web_client::connection_bus::{ClientConnectionBus, Delivery, NORMAL_CLOSE_CODE};
use web_client::connection_table::ConnectionTable;
use web_client::control_socket::{
    ControlEvent, ControlSocket, WebClientToWebServerControlMessage,
    WebClientToWebServerControlMessagePayload,
};
use web_client::terminal_socket::TerminalSocket;

fn table_with(client: &str) -> ConnectionTable<u32> {
    let mut table = ConnectionTable::new();
    table.add_new_client(client.to_owned(), 1);
    table
}

#[test]
fn output_arrives_in_order() {
    let mut table = table_with("a");
    let (tx, mut rx) = unbounded_channel();
    table.add_client_terminal_tx("a", tx);
    let mut bus = ClientConnectionBus::new("a".to_owned());
    assert_eq!(bus.send_stdout(&mut table, "one".to_owned()), Delivery::Sent);
    assert_eq!(bus.send_stdout(&mut table, "two".to_owned()), Delivery::Sent);
    assert_eq!(rx.try_recv().unwrap(), "one");
    assert_eq!(rx.try_recv().unwrap(), "two");
    assert!(rx.try_recv().is_err());
}

#[test]
fn output_without_a_channel_goes_nowhere() {
    let mut table = table_with("a");
    let mut bus = ClientConnectionBus::new("a".to_owned());
    assert_eq!(bus.send_stdout(&mut table, "lost".to_owned()), Delivery::NoChannel);
    assert!(bus.stdout_channel_tx.is_none());
    // The channel is looked up again with the next output.
    let (tx, mut rx) = unbounded_channel();
    table.add_client_terminal_tx("a", tx);
    assert_eq!(bus.send_stdout(&mut table, "kept".to_owned()), Delivery::Sent);
    assert_eq!(rx.try_recv().unwrap(), "kept");
}

#[test]
fn output_to_a_closed_channel_is_refused() {
    let mut table = table_with("a");
    let (tx, rx) = unbounded_channel();
    table.add_client_terminal_tx("a", tx);
    drop(rx);
    let mut bus = ClientConnectionBus::new("a".to_owned());
    assert_eq!(bus.send_stdout(&mut table, "late".to_owned()), Delivery::Refused);
    assert!(bus.stdout_channel_tx.is_some());
}

#[test]
fn refused_output_is_not_sent_elsewhere() {
    let mut table = table_with("a");
    let (first_tx, first_rx) = unbounded_channel();
    let (second_tx, mut second_rx) = unbounded_channel();
    table.add_client_terminal_tx("a", first_tx.clone());
    let mut bus = ClientConnectionBus::new("a".to_owned());
    assert_eq!(bus.send_stdout(&mut table, "one".to_owned()), Delivery::Sent);
    drop(first_rx);
    table.add_client_terminal_tx("a", second_tx);
    assert_eq!(bus.send_stdout(&mut table, "two".to_owned()), Delivery::Refused);
    assert!(second_rx.try_recv().is_err());
    assert!(bus.stdout_channel_tx.unwrap().same_channel(&first_tx));
}

#[test]
fn output_before_the_channel_is_dropped() {
    let mut table = table_with("a");
    let mut bus = ClientConnectionBus::new("a".to_owned());
    bus.send_stdout(&mut table, "one".to_owned());
    let (tx, mut rx) = unbounded_channel();
    table.add_client_terminal_tx("a", tx);
    bus.send_stdout(&mut table, "two".to_owned());
    bus.send_stdout(&mut table, "three".to_owned());
    assert_eq!(rx.try_recv().unwrap(), "two");
    assert_eq!(rx.try_recv().unwrap(), "three");
    assert!(rx.try_recv().is_err());
}

#[test]
fn a_channel_once_found_is_kept() {
    let mut table = table_with("a");
    let (first_tx, mut first_rx) = unbounded_channel();
    let (second_tx, mut second_rx) = unbounded_channel();
    table.add_client_terminal_tx("a", first_tx);
    let mut bus = ClientConnectionBus::new("a".to_owned());
    bus.send_stdout(&mut table, "one".to_owned());
    table.add_client_terminal_tx("a", second_tx);
    bus.send_stdout(&mut table, "two".to_owned());
    table.remove_client("a");
    assert_eq!(bus.send_stdout(&mut table, "three".to_owned()), Delivery::Sent);
    assert_eq!(first_rx.try_recv().unwrap(), "one");
    assert_eq!(first_rx.try_recv().unwrap(), "two");
    assert_eq!(first_rx.try_recv().unwrap(), "three");
    assert!(second_rx.try_recv().is_err());
}

#[test]
fn control_messages_are_sent_as_text() {
    let mut table = table_with("a");
    let (tx, mut rx) = unbounded_channel();
    let mut bus = ClientConnectionBus::new("a".to_owned());
    assert_eq!(bus.send_control(&mut table, "{}".to_owned()), Delivery::NoChannel);
    table.add_client_control_tx("a", tx);
    assert_eq!(bus.send_control(&mut table, "{\"x\":1}".to_owned()), Delivery::Sent);
    assert_eq!(rx.try_recv().unwrap(), Message::Text("{\"x\":1}".into()));
    drop(rx);
    assert_eq!(bus.send_control(&mut table, "{}".to_owned()), Delivery::Refused);
}

#[test]
fn messages_come_out_of_the_opened_sockets() {
    let mut table = table_with("a");
    let (_terminal, mut output) = TerminalSocket::open(&mut table, "a".to_owned(), None).unwrap();
    let (mut control, mut messages) = ControlSocket::open();
    let first: ControlEvent<u8, u8> = ControlEvent::Message(WebClientToWebServerControlMessage {
        web_client_id: "a".to_owned(),
        payload: WebClientToWebServerControlMessagePayload::TerminalPixelDimensions(1),
    });
    control.handle(&mut table, first);
    let mut bus = ClientConnectionBus::new("a".to_owned());
    assert_eq!(bus.send_stdout(&mut table, "out".to_owned()), Delivery::Sent);
    assert_eq!(bus.send_control(&mut table, "{}".to_owned()), Delivery::Sent);
    assert_eq!(output.try_recv().unwrap(), "out");
    assert_eq!(messages.try_recv().unwrap(), Message::Text("{}".into()));
    // What is refused does not come out.
    output.close();
    assert_eq!(bus.send_stdout(&mut table, "late".to_owned()), Delivery::Refused);
    assert!(output.try_recv().is_err());
}

#[test]
fn closing_tells_the_client_and_removes_it() {
    let mut table = table_with("a");
    let (tx, mut rx) = unbounded_channel();
    let token = CancellationToken::new();
    table.add_client_control_tx("a", tx);
    table.add_client_terminal_channel_cancellation_token("a", token.clone());
    let mut bus = ClientConnectionBus::new("a".to_owned());
    let (delivery, removed) = bus.close_connection(&mut table);
    assert_eq!(delivery, Delivery::Sent);
    assert!(removed.unwrap().cancelled.is_some());
    assert!(token.is_cancelled());
    assert!(table.get_client_os_api("a").is_none());
    assert_eq!(
        rx.try_recv().unwrap(),
        Message::Close(Some(CloseFrame {
            code: close_code::NORMAL,
            reason: "Connection closed".into(),
        }))
    );
    assert!(rx.try_recv().is_err());
}

#[test]
fn closing_without_a_channel_still_removes_the_client() {
    let mut table = table_with("a");
    let mut bus = ClientConnectionBus::new("a".to_owned());
    let (delivery, removed) = bus.close_connection(&mut table);
    assert_eq!(delivery, Delivery::NoChannel);
    assert!(removed.unwrap().cancelled.is_none());
    assert!(table.get_client_os_api("a").is_none());
}

#[test]
fn closing_code_is_the_normal_one() {
    assert_eq!(NORMAL_CLOSE_CODE, close_code::NORMAL);
}

#[test]
fn delivery_follows_the_channel() {
    assert_eq!(Delivery::of_send(true), Delivery::Sent);
    assert_eq!(Delivery::of_send(false), Delivery::Refused);
}
