use axum::extract::ws::Message;
use tokio::sync::mpsc::UnboundedReceiver;
use web_client::connection_bus::Delivery;
use web_client::connection_table::ConnectionTable;
use web_client::control_socket::{
    route_control_message, ClientToServerMsg, ControlAction, ControlEvent, ControlSocket,
    WebClientToWebServerControlMessage, WebClientToWebServerControlMessagePayload,
};

type Size = (u16, u16);
type Pixels = u32;
type Payload = WebClientToWebServerControlMessagePayload<Size, Pixels>;

fn message(client: &str, payload: Payload) -> WebClientToWebServerControlMessage<Size, Pixels> {
    WebClientToWebServerControlMessage { web_client_id: client.to_owned(), payload }
}

fn shared_session() -> ConnectionTable<u32> {
    let mut table = ConnectionTable::new();
    table.add_new_client("a".to_owned(), 1);
    table.add_new_client("b".to_owned(), 2);
    table.set_client_session("a", "s".to_owned());
    table.set_client_session("b", "s".to_owned());
    table
}

fn open_socket() -> (ControlSocket, UnboundedReceiver<Message>) {
    ControlSocket::open()
}

#[test]
fn configuration_is_sent_first() {
    let mut table = shared_session();
    let (mut socket, mut rx) = open_socket();
    assert_eq!(socket.send_config("config".to_owned()), Delivery::Sent);
    let first = ControlEvent::Message(message("a", Payload::TerminalPixelDimensions(1)));
    assert!(matches!(socket.handle(&mut table, first), ControlAction::Forward(..)));
    table
        .get_client_control_tx("a")
        .unwrap()
        .send(Message::Text("later".into()))
        .unwrap();
    assert_eq!(rx.try_recv().unwrap(), Message::Text("config".into()));
    assert_eq!(rx.try_recv().unwrap(), Message::Text("later".into()));
    assert!(rx.try_recv().is_err());
}

#[test]
fn configuration_to_a_closed_socket_is_refused() {
    let (mut socket, rx) = open_socket();
    drop(rx);
    assert_eq!(socket.send_config("config".to_owned()), Delivery::Refused);
}

#[test]
fn resizes_are_forwarded_until_another_client_claims_the_size() {
    let mut table = shared_session();
    match route_control_message(&mut table, message("b", Payload::TerminalResize((24, 80)))) {
        ControlAction::Forward(client, ClientToServerMsg::TerminalResize(size)) => {
            assert_eq!(client, "b");
            assert_eq!(size, (24, 80));
        },
        _ => panic!("not forwarded"),
    }
    assert!(matches!(
        route_control_message(&mut table, message("a", Payload::DetachOtherClients)),
        ControlAction::Claimed(1)
    ));
    assert!(matches!(
        route_control_message(&mut table, message("b", Payload::TerminalResize((24, 80)))),
        ControlAction::Mirror
    ));
    assert!(matches!(
        route_control_message(&mut table, message("a", Payload::TerminalResize((24, 80)))),
        ControlAction::Forward(_, ClientToServerMsg::TerminalResize((24, 80)))
    ));
    table.remove_client("a");
    assert!(matches!(
        route_control_message(&mut table, message("b", Payload::TerminalResize((24, 80)))),
        ControlAction::Forward(_, ClientToServerMsg::TerminalResize((24, 80)))
    ));
}

#[test]
fn pixel_dimensions_are_forwarded_by_everyone() {
    let mut table = shared_session();
    table.claim_session_size_owner("a");
    match route_control_message(&mut table, message("b", Payload::TerminalPixelDimensions(640))) {
        ControlAction::Forward(client, ClientToServerMsg::TerminalPixelDimensions(pixels)) => {
            assert_eq!(client, "b");
            assert_eq!(pixels, 640);
        },
        _ => panic!("not forwarded"),
    }
}

#[test]
fn messages_of_unknown_clients_change_nothing() {
    let mut table = shared_session();
    table.remove_client("a");
    table.set_client_session("a", "s".to_owned());
    for payload in [
        Payload::TerminalResize((1, 1)),
        Payload::TerminalPixelDimensions(1),
        Payload::DetachOtherClients,
    ] {
        assert!(matches!(
            route_control_message(&mut table, message("a", payload)),
            ControlAction::UnknownClient
        ));
    }
    assert!(table.resize_allowed("b"));
}

#[test]
fn the_first_message_registers_the_control_channel() {
    let mut table = shared_session();
    let (mut socket, mut rx) = open_socket();
    let nothing: ControlEvent<Size, Pixels> = ControlEvent::Undecodable;
    assert!(matches!(
        socket.handle(&mut table, nothing),
        ControlAction::ReportUndecodable
    ));
    assert!(table.get_client_control_tx("a").is_none());
    let first = ControlEvent::Message(message("a", Payload::TerminalPixelDimensions(1)));
    assert!(matches!(socket.handle(&mut table, first), ControlAction::Forward(..)));
    table
        .get_client_control_tx("a")
        .unwrap()
        .send(Message::Text("hello".into()))
        .unwrap();
    assert_eq!(rx.try_recv().unwrap(), Message::Text("hello".into()));
    let second = ControlEvent::Message(message("b", Payload::TerminalPixelDimensions(1)));
    assert!(matches!(socket.handle(&mut table, second), ControlAction::Forward(..)));
    assert!(table.get_client_control_tx("b").is_none());
}

#[test]
fn a_first_message_of_an_unknown_client_uses_up_the_registration() {
    let mut table = shared_session();
    let (mut socket, _rx) = open_socket();
    let first = ControlEvent::Message(message("z", Payload::TerminalPixelDimensions(1)));
    assert!(matches!(socket.handle(&mut table, first), ControlAction::UnknownClient));
    let second = ControlEvent::Message(message("a", Payload::TerminalPixelDimensions(1)));
    assert!(matches!(socket.handle(&mut table, second), ControlAction::Forward(..)));
    assert!(table.get_client_control_tx("a").is_none());
}

#[test]
fn other_events_end_or_are_reported() {
    let mut table = shared_session();
    let (mut socket, _rx) = open_socket();
    let unsupported: ControlEvent<Size, Pixels> = ControlEvent::Unsupported;
    let close: ControlEvent<Size, Pixels> = ControlEvent::Close;
    let ended: ControlEvent<Size, Pixels> = ControlEvent::Ended;
    assert!(matches!(
        socket.handle(&mut table, unsupported),
        ControlAction::ReportUnsupported
    ));
    assert!(matches!(socket.handle(&mut table, close), ControlAction::Stop));
    assert!(matches!(socket.handle(&mut table, ended), ControlAction::Stop));
    assert!(!socket.set_client_control_channel);
    assert!(table.get_client_os_api("a").is_some());
}
