use web_client::web_server::{
    discover_webserver_sockets, query_webserver_version, ContactStep, DirEntry,
    InstructionForWebServer, QueryStage, ServerEntry, ShutdownStep, ShutdownWalk, VersionInfo,
    WebServerResponse,
};

fn entry(
    path: &'static str,
    is_socket: Result<bool, u8>,
) -> Result<DirEntry<&'static str, u8>, u8> {
    Ok(DirEntry { path, is_socket })
}

fn server(
    has_text_name: bool,
    path: Option<&str>,
    is_socket: Result<bool, u8>,
) -> Result<ServerEntry<u8>, u8> {
    Ok(ServerEntry { has_text_name, path: path.map(|p| p.to_owned()), is_socket })
}

#[test]
fn sockets_are_discovered_in_order() {
    let entries = vec![
        entry("one", Ok(true)),
        entry("notes", Ok(false)),
        entry("two", Ok(true)),
    ];
    assert_eq!(discover_webserver_sockets(Some(Ok(entries))), Ok(vec!["one", "two"]));
}

#[test]
fn no_directory_has_no_sockets() {
    let found: Result<Vec<&str>, u8> = discover_webserver_sockets(None);
    assert_eq!(found, Ok(vec![]));
}

#[test]
fn discovery_fails_with_the_first_failure() {
    let unreadable: Result<Vec<&str>, u8> = discover_webserver_sockets(Some(Err(9)));
    assert_eq!(unreadable, Err(9));
    let entries = vec![
        entry("one", Ok(true)),
        entry("two", Err(1)),
        Err(2),
    ];
    assert_eq!(discover_webserver_sockets(Some(Ok(entries))), Err(1));
    let entries = vec![entry("one", Ok(true)), Err(2), entry("two", Err(1))];
    assert_eq!(discover_webserver_sockets(Some(Ok(entries))), Err(2));
}

fn start() -> ShutdownWalk<u8> {
    match ShutdownWalk::start(Ok(())) {
        Ok(walk) => walk,
        Err(_) => panic!("not started"),
    }
}

#[test]
fn sockets_are_told_to_shut_down() {
    // The first server is reached, the second one is not, the third one does not take it.
    let answers = [(true, true), (false, false), (true, false)];
    let mut connected = Vec::new();
    let mut told = 0;
    let mut walk = start();
    for (path, answer) in ["/run/one", "/run/two", "/run/three"].iter().zip(answers) {
        walk = match walk.step(Some(server(true, Some(path), Ok(true)))) {
            ShutdownStep::Connect(contact, path) => {
                connected.push(path);
                let step: ContactStep<(), u8> = contact.connected(answer.0);
                match step {
                    ContactStep::NextEntry(walk) => {
                        assert!(!answer.0);
                        walk
                    },
                    ContactStep::Send(sending, instruction) => {
                        assert!(answer.0);
                        assert!(matches!(instruction, InstructionForWebServer::ShutdownWebServer));
                        told += 1;
                        sending.sent(answer.1)
                    },
                }
            },
            _ => panic!("not connected to"),
        };
    }
    assert_eq!(connected, vec!["/run/one", "/run/two", "/run/three"]);
    assert_eq!(told, 2);
    assert!(matches!(walk.step(None), ShutdownStep::Return(Ok(()))));
}

#[test]
fn a_path_that_is_no_text_is_taken_for_an_empty_one() {
    let step = start().step(Some(server(true, None, Ok(true))));
    assert!(matches!(step, ShutdownStep::Connect(_, path) if path.is_empty()));
}

#[test]
fn other_entries_are_passed_over() {
    let mut walk = start();
    for entry in [
        server(true, Some("f"), Ok(false)),
        server(false, None, Ok(true)),
        server(false, None, Err(3)),
    ] {
        walk = match walk.step(Some(entry)) {
            ShutdownStep::NextEntry(walk) => walk,
            _ => panic!("not passed over"),
        };
    }
    assert!(matches!(walk.step(None), ShutdownStep::Return(Ok(()))));
}

#[test]
fn shutting_down_ends_with_the_first_failure() {
    assert!(matches!(ShutdownWalk::start(Err(7u8)), Err(7)));
    assert!(matches!(start().step(Some(Err(4))), ShutdownStep::Return(Err(4))));
    let step = start().step(Some(server(true, Some("f"), Err(5))));
    assert!(matches!(step, ShutdownStep::Return(Err(5))));
}

#[test]
fn query_version_round_trip() {
    let mut written = Vec::new();
    let mut stages = vec![QueryStage::first()];
    let mut stage = QueryStage::first();
    loop {
        let instruction: Option<InstructionForWebServer<()>> = stage.instruction();
        if let Some(instruction) = instruction {
            assert!(matches!(instruction, InstructionForWebServer::QueryVersion));
            written.push(stage);
        }
        let done: Result<(), u8> = Ok(());
        match stage.next(done).unwrap() {
            Some(next) => {
                stages.push(next);
                stage = next;
            },
            None => break,
        }
    }
    assert_eq!(written, vec![QueryStage::SendInstruction]);
    assert_eq!(
        stages,
        vec![
            QueryStage::Connect,
            QueryStage::LimitReads,
            QueryStage::LimitWrites,
            QueryStage::SendInstruction,
            QueryStage::CloseWriteSide,
            QueryStage::ReadResponse,
        ]
    );
    let response: Result<WebServerResponse, u8> = Ok(WebServerResponse::Version(VersionInfo {
        version: "0.43.1".to_owned(),
        ip: "0.0.0.0".to_owned(),
        port: 8082,
    }));
    let info = query_webserver_version(response).unwrap();
    assert_eq!(info.version, "0.43.1");
    assert_eq!(info.ip, "0.0.0.0");
    assert_eq!(info.port, 8082);
}

#[test]
fn a_failed_stage_ends_the_query() {
    assert_eq!(QueryStage::Connect.next(Err(6)), Err(6));
    assert_eq!(QueryStage::ReadResponse.next(Err(7)), Err(7));
    let response: Result<WebServerResponse, u8> = Err(8);
    assert!(matches!(query_webserver_version(response), Err(8)));
}
