use mtrack::controller::osc::{event_for_address, handle_packet, step, DriverAction, DriverEvent};
use mtrack::controller::Event;
use mtrack::net::{IpAddr, SocketAddr};
use mtrack::osc::packet::{OscArg, OscMessage, OscPacket};
use mtrack::osc::receiver::{
    Delivery, OscReceiver, PlayerReceiver, ReceiveError, ReceiverAction, ReceiverEvent,
    ResponseToOsc,
};
use mtrack::osc::sender::{Dispatch, OscOutMessage, OscSender, SenderAction, SenderEvent};
use mtrack::osc::state::{OscPlayerState, StateRequest};
use mtrack::player::PlayerMessage;
use mtrack::text::address_segment;

fn client(port: u16) -> SocketAddr {
    SocketAddr::new(IpAddr::V4(0x7f000001), port)
}

fn message(addr: &str) -> OscPacket {
    OscPacket::Message(OscMessage { addr: addr.to_string(), args: Vec::new() })
}

fn bundle() -> rosc::OscBundle {
    rosc::OscBundle {
        timetag: rosc::OscTime { seconds: 1, fractional: 2 },
        content: vec![rosc::OscPacket::Message(rosc::OscMessage {
            addr: "/driver/play".to_string(),
            args: vec![rosc::OscType::Int(5)],
        })],
    }
}

/// A packet in one line: the address and the arguments.
fn show(packet: &OscPacket) -> String {
    match packet {
        OscPacket::Message(message) => {
            let mut line = message.addr.clone();
            for arg in &message.args {
                match arg {
                    OscArg::String(text) => line.push_str(&format!(" {text:?}")),
                    OscArg::Bool(value) => line.push_str(&format!(" {value}")),
                    OscArg::Other(other) => line.push_str(&format!(" other {other:?}")),
                }
            }
            line
        }
        OscPacket::Bundle(bundle) => format!("bundle of {}", bundle.content.len()),
    }
}

fn show_dispatch(dispatch: &Dispatch) -> String {
    match dispatch {
        Dispatch::Send(packet, clients) => {
            let ports: Vec<String> = clients
                .iter()
                .map(|client| match client {
                    SocketAddr::V4 { port, .. } => port.to_string(),
                    SocketAddr::V6 { port, .. } => format!("v6 {port}"),
                })
                .collect();
            format!("{}: {}", ports.join(" "), show(packet))
        }
        Dispatch::NoRecipient => "no recipient".to_string(),
        Dispatch::NothingToSend => "nothing".to_string(),
    }
}

fn show_delivery(delivery: &Delivery) -> String {
    match delivery {
        Delivery::ToDriver(packet) => format!("driver {}", show(packet)),
        Delivery::ToSender(OscOutMessage::OscPacket(packet)) => format!("pass {}", show(packet)),
        Delivery::ToSender(OscOutMessage::State(request, from)) => {
            format!("answer {request:?} {from:?}")
        }
        Delivery::ToSender(OscOutMessage::AddRecipient(from)) => format!("add {from:?}"),
        Delivery::ToSender(OscOutMessage::Player(_)) => "report".to_string(),
    }
}

fn titles(list: &[&str]) -> Vec<String> {
    list.iter().map(|title| title.to_string()).collect()
}

fn select(title: &str) -> PlayerMessage {
    PlayerMessage::Select(title.to_string())
}

fn play(title: &str) -> PlayerMessage {
    PlayerMessage::Play(title.to_string())
}

fn playlist(list: &[&str]) -> PlayerMessage {
    PlayerMessage::Playlist(titles(list))
}

fn report(sender: &mut OscSender, message: PlayerMessage) -> String {
    show_dispatch(&sender.handle(OscOutMessage::Player(message)))
}

fn ask(sender: &mut OscSender, request: StateRequest, port: u16) -> String {
    show_dispatch(&sender.handle(OscOutMessage::State(request, client(port))))
}

fn encode(addr: &str, args: Vec<rosc::OscType>) -> Vec<u8> {
    rosc::encoder::encode(&rosc::OscPacket::Message(rosc::OscMessage {
        addr: addr.to_string(),
        args,
    }))
    .unwrap()
}

fn received(bytes: Vec<u8>, port: u16) -> Vec<String> {
    match OscReceiver::step(ReceiverEvent::Datagram(bytes, client(port))) {
        ReceiverAction::Deliver(list) => list.iter().map(show_delivery).collect(),
        _ => panic!("Expected deliveries"),
    }
}

#[test]
fn segments_of_addresses() {
    assert_eq!(address_segment("/song/select"), Some("song"));
    assert_eq!(address_segment("/song"), Some("song"));
    assert_eq!(address_segment("/"), Some(""));
    assert_eq!(address_segment("//song"), Some(""));
    assert_eq!(address_segment("a/b/c"), Some("b"));
    assert_eq!(address_segment("song"), None);
    assert_eq!(address_segment(""), None);
    assert_eq!(address_segment("/größe/x"), Some("größe"));
    for address in ["/a/b", "a//b", "///", "x", "", "/é/ü", "ü/é/"] {
        assert_eq!(address_segment(address), address.split("/").nth(1));
    }
}

#[test]
fn fresh_answers() {
    let mut sender = OscSender::new();
    assert_eq!(ask(&mut sender, StateRequest::Playlist, 1), "1: /playlist");
    assert_eq!(ask(&mut sender, StateRequest::CurrentSong, 2), "2: /song \"-\"");
    assert_eq!(ask(&mut sender, StateRequest::IsPlaying, 3), "3: /is_playing false");
}

#[test]
fn reports_change_the_state() {
    let mut state = OscPlayerState::new();
    state.set_state(&playlist(&["Song 1", "Song 3", "Song 5"]));
    assert_eq!(state.playlist, titles(&["Song 1", "Song 3", "Song 5"]));
    assert!(state.current_song.is_none());
    state.set_state(&select("Song 1"));
    assert_eq!(state.current_song.as_deref(), Some("Song 1"));
    state.set_state(&PlayerMessage::Next);
    assert_eq!(state.current_song.as_deref(), Some("Song 3"));
    state.set_state(&PlayerMessage::Prev);
    assert_eq!(state.current_song.as_deref(), Some("Song 3"));
    state.set_state(&play("Song 5"));
    assert_eq!(state.current_song.as_deref(), Some("Song 5"));
    assert!(!state.is_playing);
    state.set_state(&PlayerMessage::Stop);
    assert_eq!(state.current_song.as_deref(), Some("Song 5"));
    state.set_state(&PlayerMessage::Next);
    assert!(state.current_song.is_none());
    state.set_state(&PlayerMessage::Next);
    assert!(state.current_song.is_none());
}

#[test]
fn next_at_unusual_places() {
    let mut state = OscPlayerState::new();
    state.is_playing = true;
    state.set_state(&playlist(&["A", "B", "A", "C"]));
    state.set_state(&select("A"));
    assert!(state.is_playing);
    state.set_state(&PlayerMessage::Next);
    assert!(!state.is_playing);
    state.set_state(&PlayerMessage::Next);
    assert_eq!(state.current_song.as_deref(), Some("A"));
    state.set_state(&PlayerMessage::Next);
    assert_eq!(state.current_song.as_deref(), Some("B"));
    state.set_state(&select("unknown"));
    state.set_state(&PlayerMessage::Next);
    assert!(state.current_song.is_none());
    state.set_state(&playlist(&["", "b"]));
    state.set_state(&PlayerMessage::Next);
    assert_eq!(state.current_song.as_deref(), Some("b"));
}

#[test]
fn announcements() {
    let mut state = OscPlayerState::new();
    state.set_state(&select("now"));
    assert_eq!(show(&state.response_for_player_message(select("x"))), "/song/select \"x\"");
    assert_eq!(show(&state.response_for_player_message(play("x"))), "/song/play \"x\"");
    assert_eq!(
        show(&state.response_for_player_message(PlayerMessage::Prev)),
        "/song/select \"now\""
    );
    assert_eq!(
        show(&state.response_for_player_message(PlayerMessage::Next)),
        "/song/select \"now\""
    );
    assert_eq!(show(&state.response_for_player_message(PlayerMessage::Stop)), "/stop");
    assert_eq!(
        show(&state.response_for_player_message(playlist(&["a", "b"]))),
        "/playlist \"a\" \"b\""
    );
    let fresh = OscPlayerState::new();
    assert_eq!(
        show(&fresh.response_for_player_message(PlayerMessage::Prev)),
        "/song/select \"-\""
    );
}

#[test]
fn told_what_was_reported() {
    let mut sender = OscSender::new();
    assert_eq!(report(&mut sender, playlist(&["A", "B"])), "no recipient");
    assert_eq!(report(&mut sender, play("A")), "no recipient");
    assert_eq!(ask(&mut sender, StateRequest::CurrentSong, 7), "7: /song \"A\"");
    assert_eq!(ask(&mut sender, StateRequest::Playlist, 8), "8: /playlist \"A\" \"B\"");
    assert_eq!(report(&mut sender, PlayerMessage::Next), "7 8: /song/select \"B\"");
    assert_eq!(report(&mut sender, PlayerMessage::Next), "7 8: /song/select \"-\"");
    assert_eq!(report(&mut sender, PlayerMessage::Stop), "7 8: /stop");
    assert_eq!(ask(&mut sender, StateRequest::IsPlaying, 8), "8: /is_playing false");
    assert_eq!(report(&mut sender, play("B")), "7 8: /song/play \"B\"");
    assert_eq!(ask(&mut sender, StateRequest::IsPlaying, 8), "8: /is_playing false");
    assert_eq!(report(&mut sender, playlist(&["C"])), "7 8: /playlist \"C\"");
    assert_eq!(ask(&mut sender, StateRequest::Playlist, 9), "9: /playlist \"C\"");
    assert_eq!(ask(&mut sender, StateRequest::CurrentSong, 9), "9: /song \"B\"");
}

#[test]
fn clients_become_known() {
    let mut sender = OscSender::new();
    assert!(!sender.knows(client(1)));
    let added = sender.handle(OscOutMessage::AddRecipient(client(1)));
    assert_eq!(show_dispatch(&added), "nothing");
    assert!(sender.knows(client(1)));
    assert!(!sender.knows(client(2)));
    ask(&mut sender, StateRequest::IsPlaying, 2);
    assert!(sender.knows(client(1)) && sender.knows(client(2)));
    sender.handle(OscOutMessage::AddRecipient(client(1)));
    assert_eq!(report(&mut sender, select("x")), "1 2: /song/select \"x\"");
    let passed = sender.handle(OscOutMessage::OscPacket(OscPacket::Bundle(bundle())));
    assert_eq!(show_dispatch(&passed), "1: bundle of 1");
    let ipv6 = SocketAddr::V6 { ip: 1, port: 1, flow_info: 0, scope_id: 0 };
    let other_scope = SocketAddr::V6 { ip: 1, port: 1, flow_info: 0, scope_id: 1 };
    sender.handle(OscOutMessage::AddRecipient(ipv6));
    assert!(sender.knows(ipv6));
    assert!(!sender.knows(other_scope));
}

#[test]
fn requests_are_routed() {
    let route = |addr: &str, from: Option<SocketAddr>| {
        match OscReceiver::handle_packet(message(addr), from) {
            ResponseToOsc::Osc(packet) => format!("osc {}", show(&packet)),
            ResponseToOsc::State(request, _) => format!("state {request:?}"),
            ResponseToOsc::Driver(packet, _) => format!("driver {}", show(&packet)),
            ResponseToOsc::Empty => "empty".to_string(),
        }
    };
    let from = Some(client(1));
    assert_eq!(route("/driver/play", from), "driver /driver/play");
    assert_eq!(route("/driver", from), "driver /driver");
    assert_eq!(route("/driver/nonsense", from), "driver /driver/nonsense");
    assert_eq!(route("/song", from), "state CurrentSong");
    assert_eq!(route("/song/anything", from), "state CurrentSong");
    assert_eq!(route("/playlist", from), "state Playlist");
    assert_eq!(route("/is_playing", from), "state IsPlaying");
    assert_eq!(route("x/playlist", from), "state Playlist");
    assert_eq!(route("/Song", from), "empty");
    assert_eq!(route("/", from), "empty");
    assert_eq!(route("song", from), "empty");
    assert_eq!(route("//song", from), "empty");
    for addr in ["/driver/play", "/song", "/playlist", "/is_playing"] {
        assert_eq!(route(addr, None), "empty");
    }
    assert!(matches!(
        OscReceiver::handle_packet(OscPacket::Bundle(bundle()), None),
        ResponseToOsc::Osc(OscPacket::Bundle(b)) if b == bundle()
    ));
}

#[test]
fn responses_need_a_client() {
    assert!(matches!(
        ResponseToOsc::from((StateRequest::Playlist, Some(client(4)))),
        ResponseToOsc::State(StateRequest::Playlist, c) if c == client(4)
    ));
    assert!(matches!(
        ResponseToOsc::from((StateRequest::Playlist, None)),
        ResponseToOsc::Empty
    ));
}

#[test]
fn datagrams_are_delivered() {
    assert_eq!(
        received(encode("/driver/next", vec![]), 5),
        vec!["driver /driver/next".to_string(), format!("add {:?}", client(5))]
    );
    assert_eq!(
        received(encode("/driver/play", vec![rosc::OscType::Int(3), rosc::OscType::Bool(true)]), 5)[0],
        "driver /driver/play other Int(3) true"
    );
    assert_eq!(
        received(encode("/song", vec![rosc::OscType::String("x".to_string())]), 6),
        vec![format!("answer CurrentSong {:?}", client(6))]
    );
    assert_eq!(received(encode("/unknown", vec![]), 6), Vec::<String>::new());
    let bytes = rosc::encoder::encode(&rosc::OscPacket::Bundle(bundle())).unwrap();
    assert_eq!(received(bytes, 6), vec!["pass bundle of 1".to_string()]);
}

#[test]
fn datagrams_that_are_no_packets() {
    let mut bytes = encode("/song", vec![]);
    bytes.extend([0, 0, 0]);
    assert!(matches!(
        OscReceiver::step(ReceiverEvent::Datagram(bytes, client(1))),
        ReceiverAction::Fail(ReceiveError::TrailingBytes(3))
    ));
    assert!(matches!(
        OscReceiver::receive(&[]),
        Err(ReceiveError::Undecodable(rosc::OscError::BadPacket(_)))
    ));
    assert!(matches!(
        OscReceiver::receive(b"song\0\0\0\0,\0\0\0"),
        Err(ReceiveError::Undecodable(_))
    ));
    assert!(matches!(
        OscReceiver::step(ReceiverEvent::Datagram(vec![1, 2, 3], client(1))),
        ReceiverAction::Fail(ReceiveError::Undecodable(_))
    ));
    assert!(matches!(
        OscReceiver::step(ReceiverEvent::SocketFailed),
        ReceiverAction::Fail(ReceiveError::NoDatagram)
    ));
    assert!(matches!(
        OscReceiver::whole_packet(Ok((message("/song"), 2))),
        Err(ReceiveError::TrailingBytes(2))
    ));
    assert!(OscReceiver::whole_packet(Ok((message("/song"), 0))).is_ok());
}

#[test]
fn receiving_loop() {
    assert!(matches!(OscReceiver::step(ReceiverEvent::Interrupted), ReceiverAction::Yield));
    assert!(matches!(OscReceiver::step(ReceiverEvent::Cancelled), ReceiverAction::Finish));
}

#[test]
fn sending_loop() {
    let mut sender = OscSender::new();
    assert!(matches!(sender.step(SenderEvent::NoMessage), SenderAction::Wait));
    let stop = SenderEvent::Message(OscOutMessage::Player(PlayerMessage::Stop));
    assert!(matches!(sender.step(stop), SenderAction::Wait));
    let add = SenderEvent::Message(OscOutMessage::AddRecipient(client(3)));
    assert!(matches!(sender.step(add), SenderAction::Wait));
    let stop = SenderEvent::Message(OscOutMessage::Player(PlayerMessage::Stop));
    match sender.step(stop) {
        SenderAction::Transmit(bytes, to) => {
            assert_eq!(bytes, b"/stop\0\0\0,\0\0\0");
            assert_eq!(to, vec![client(3)]);
        }
        _ => panic!("Expected a datagram"),
    }
    let ask = SenderEvent::Message(OscOutMessage::State(StateRequest::IsPlaying, client(4)));
    match sender.step(ask) {
        SenderAction::Transmit(bytes, to) => {
            assert_eq!(bytes, encode("/is_playing", vec![rosc::OscType::Bool(false)]));
            assert_eq!(to, vec![client(4)]);
        }
        _ => panic!("Expected a datagram"),
    }
    assert!(matches!(sender.step(SenderEvent::Cancelled), SenderAction::Finish));
}

#[test]
fn reports_reach_every_client() {
    let mut sender = OscSender::new();
    for port in [9001, 9002, 9001] {
        let add = SenderEvent::Message(OscOutMessage::AddRecipient(client(port)));
        assert!(matches!(sender.step(add), SenderAction::Wait));
    }
    let stop = SenderEvent::Message(OscOutMessage::Player(PlayerMessage::Stop));
    match sender.step(stop) {
        SenderAction::Transmit(bytes, to) => {
            assert_eq!(bytes, encode("/stop", vec![]));
            assert_eq!(to, vec![client(9001), client(9002)]);
        }
        _ => panic!("Expected a datagram"),
    }
}

#[test]
fn packets_are_passed_on_as_they_are() {
    let mut sender = OscSender::new();
    sender.handle(OscOutMessage::AddRecipient(client(3)));
    let args = vec![
        rosc::OscType::Int(-1),
        rosc::OscType::Blob(vec![1, 2, 3, 4, 5]),
        rosc::OscType::String("text".to_string()),
        rosc::OscType::Nil,
    ];
    let bytes = encode("/x", args);
    let packet = match OscReceiver::receive(&bytes) {
        Ok(packet) => packet,
        Err(_) => panic!("Expected a packet"),
    };
    match sender.step(SenderEvent::Message(OscOutMessage::OscPacket(packet))) {
        SenderAction::Transmit(sent, _) => assert_eq!(sent, bytes),
        _ => panic!("Expected a datagram"),
    }
    let bytes = rosc::encoder::encode(&rosc::OscPacket::Bundle(bundle())).unwrap();
    match sender.step(SenderEvent::Message(OscOutMessage::OscPacket(OscPacket::Bundle(bundle())))) {
        SenderAction::Transmit(sent, _) => assert_eq!(sent, bytes),
        _ => panic!("Expected a datagram"),
    }
}

#[test]
fn replies_survive_the_wire() {
    let mut sender = OscSender::new();
    let lists: [&[&str]; 4] = [&[], &["a"], &["ab", "abc", "abcd", "", "äöü"], &["-", "/x"]];
    for list in lists {
        sender.handle(OscOutMessage::Player(playlist(list)));
        let expected = show(&{
            let mut state = OscPlayerState::new();
            state.set_state(&playlist(list));
            state.response_for_state_request(StateRequest::Playlist)
        });
        let ask = SenderEvent::Message(OscOutMessage::State(StateRequest::Playlist, client(1)));
        match sender.step(ask) {
            SenderAction::Transmit(bytes, _) => match OscReceiver::receive(&bytes) {
                Ok(packet) => assert_eq!(show(&packet), expected),
                Err(_) => panic!("Expected a packet"),
            },
            _ => panic!("Expected a datagram"),
        }
    }
}

#[test]
fn reports_are_forwarded() {
    assert!(PlayerReceiver::forward(None).is_none());
    assert!(matches!(
        PlayerReceiver::forward(Some(PlayerMessage::Next)),
        Some(OscOutMessage::Player(PlayerMessage::Next))
    ));
    assert!(matches!(
        PlayerReceiver::forward(Some(select("x"))),
        Some(OscOutMessage::Player(PlayerMessage::Select(song))) if song == "x"
    ));
}

#[test]
fn addresses_of_commands() {
    assert_eq!(event_for_address("/driver/play"), Some(Event::Play));
    assert_eq!(event_for_address("/driver/stop"), Some(Event::Stop));
    assert_eq!(event_for_address("/driver/prev"), Some(Event::Prev));
    assert_eq!(event_for_address("/driver/next"), Some(Event::Next));
    assert_eq!(event_for_address("/driver/all_songs"), Some(Event::AllSongs));
    assert_eq!(event_for_address("/driver/playlist"), Some(Event::Playlist));
    assert_eq!(event_for_address("/driver/Play"), None);
    assert_eq!(event_for_address("/driver/play/"), None);
    assert_eq!(event_for_address("/driver"), None);
}

#[test]
fn driver_loop() {
    assert_eq!(step(&DriverEvent::Closed), DriverAction::Finish);
    assert_eq!(step(&DriverEvent::Received(None)), DriverAction::Nothing);
    assert_eq!(
        step(&DriverEvent::Received(Some(message("/driver/all_songs")))),
        DriverAction::Emit(Event::AllSongs)
    );
    assert_eq!(
        step(&DriverEvent::Received(Some(message("/driver/other")))),
        DriverAction::UnknownAddress
    );
    assert_eq!(handle_packet(&OscPacket::Bundle(bundle())), DriverAction::UnsupportedBundle);
}

/// A client steers a player of five songs, and is told of every step.
#[test]
fn a_session_over_osc() {
    let mut sender = OscSender::new();
    let known = ["Song 1", "Song 3", "Song 5", "Song 7"];
    report(&mut sender, playlist(&known));
    report(&mut sender, select("Song 1"));

    let command = |sender: &mut OscSender, addr: &str| -> Option<Event> {
        let mut event = None;
        match OscReceiver::step(ReceiverEvent::Datagram(encode(addr, vec![]), client(9877))) {
            ReceiverAction::Deliver(list) => {
                for delivery in list {
                    match delivery {
                        Delivery::ToDriver(packet) => {
                            if let DriverAction::Emit(e) = step(&DriverEvent::Received(Some(packet))) {
                                event = Some(e);
                            }
                        }
                        Delivery::ToSender(message) => {
                            sender.handle(message);
                        }
                    }
                }
            }
            _ => panic!("Expected deliveries"),
        }
        event
    };

    assert_eq!(ask(&mut sender, StateRequest::Playlist, 9877),
        "9877: /playlist \"Song 1\" \"Song 3\" \"Song 5\" \"Song 7\"");
    assert_eq!(ask(&mut sender, StateRequest::CurrentSong, 9877), "9877: /song \"Song 1\"");

    for song in ["Song 3", "Song 5", "Song 7"] {
        assert_eq!(command(&mut sender, "/driver/next"), Some(Event::Next));
        let told = report(&mut sender, PlayerMessage::Next);
        assert_eq!(told, format!("9877: /song/select {song:?}"));
    }
    assert_eq!(command(&mut sender, "/driver/prev"), Some(Event::Prev));
    report(&mut sender, PlayerMessage::Prev);
    assert_eq!(report(&mut sender, select("Song 5")), "9877: /song/select \"Song 5\"");

    assert_eq!(command(&mut sender, "/driver/all_songs"), Some(Event::AllSongs));
    assert_eq!(
        report(&mut sender, playlist(&["Song 1", "Song 10", "Song 2", "Song 3"])),
        "9877: /playlist \"Song 1\" \"Song 10\" \"Song 2\" \"Song 3\""
    );
    report(&mut sender, select("Song 1"));
    assert_eq!(command(&mut sender, "/driver/next"), Some(Event::Next));
    assert_eq!(report(&mut sender, PlayerMessage::Next), "9877: /song/select \"Song 10\"");
    assert_eq!(report(&mut sender, PlayerMessage::Next), "9877: /song/select \"Song 2\"");

    assert_eq!(command(&mut sender, "/driver/playlist"), Some(Event::Playlist));
    assert_eq!(command(&mut sender, "/driver/play"), Some(Event::Play));
    assert_eq!(report(&mut sender, play("Song 7")), "9877: /song/play \"Song 7\"");
    assert_eq!(command(&mut sender, "/driver/stop"), Some(Event::Stop));
    assert_eq!(report(&mut sender, PlayerMessage::Stop), "9877: /stop");
    assert_eq!(command(&mut sender, "/driver/other"), None);
}
