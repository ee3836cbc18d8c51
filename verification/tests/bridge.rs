use rustterm::bridge::{address, announcement, on_incoming, on_sent, Incoming, Reaction};
use rustterm::reply::CommandResult;
use rustterm::step::Step;

#[test]
fn a_text_frame_is_dispatched_as_it_stands() {
    assert_eq!(
        on_incoming(Incoming::Text("echo  hi ".to_string())),
        Reaction::Run(Step::Done(CommandResult::Output(" hi ".to_string())))
    );
    assert_eq!(
        on_incoming(Incoming::Text(" ls".to_string())),
        Reaction::Run(Step::Done(CommandResult::Output("Unknown command:  ls".to_string())))
    );
    assert_eq!(on_incoming(Incoming::Text("ls".to_string())), Reaction::Run(Step::ListDir));
}

#[test]
fn other_frames_are_passed_over() {
    assert_eq!(on_incoming(Incoming::Other), Reaction::Continue);
}

#[test]
fn a_failure_of_the_transport_ends_the_connection() {
    assert_eq!(
        on_incoming(Incoming::Failed("Connection reset without closing handshake".to_string())),
        Reaction::Close(Some("Error: Connection reset without closing handshake".to_string()))
    );
    assert_eq!(on_incoming(Incoming::Closed), Reaction::Close(None));
}

#[test]
fn a_failed_send_ends_the_connection() {
    assert_eq!(on_sent(Ok(())), Reaction::Continue);
    assert_eq!(
        on_sent(Err("Broken pipe".to_string())),
        Reaction::Close(Some("Send error: Broken pipe".to_string()))
    );
}

#[test]
fn the_bridge_announces_its_address() {
    assert_eq!(address(), "127.0.0.1:8080");
    assert_eq!(announcement(), "WebSocket server running on ws://127.0.0.1:8080");
}

#[test]
fn interleaved_connections_keep_their_own_order() {
    let a = ["echo c1", "echo c2"];
    let b = ["echo d1"];
    let schedules: [[(char, usize); 3]; 3] = [
        [('b', 0), ('a', 0), ('a', 1)],
        [('a', 0), ('b', 0), ('a', 1)],
        [('a', 0), ('a', 1), ('b', 0)],
    ];
    for schedule in schedules {
        let mut to_a = Vec::new();
        let mut to_b = Vec::new();
        for (connection, at) in schedule {
            let line = if connection == 'a' { a[at] } else { b[at] };
            let reaction = on_incoming(Incoming::Text(line.to_string()));
            let text = match reaction {
                Reaction::Run(Step::Done(result)) => result.into_text(),
                other => panic!("unexpected reaction {:?}", other),
            };
            if connection == 'a' {
                to_a.push(text);
            } else {
                to_b.push(text);
            }
        }
        assert_eq!(to_a, vec!["c1".to_string(), "c2".to_string()]);
        assert_eq!(to_b, vec!["d1".to_string()]);
    }
}
