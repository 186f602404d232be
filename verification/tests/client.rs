use synapse::client::{Client, ClientAction, ClientSession};
use synapse::connection::{ConnectionEvent, Phase, SessionError};
use synapse::events::ClientEvent;
use synapse::input::{KeyAction, KeyCode};
use synapse::message::{DeviceId, Message};
use synapse::screen::{ScreenId, ScreenInfo, ScreenRect};

fn session() -> ClientSession {
    ClientSession::new("me".to_string(), "my name".to_string(), (1280, 720))
}

fn welcome() -> ConnectionEvent {
    ConnectionEvent::Frame(Message::Welcome {
        device_id: DeviceId("ctl".to_string()),
        device_name: "controller".to_string(),
        screens: vec![],
    })
}

fn ready() -> ClientSession {
    let mut s = session();
    s.step(welcome());
    assert_eq!(s.phase(), Phase::Ready);
    s
}

fn farewell() -> Vec<ClientAction> {
    vec![
        ClientAction::Send(Message::Bye { device_id: DeviceId("me".to_string()) }),
        ClientAction::Notify(ClientEvent::Disconnected),
        ClientAction::Notify(ClientEvent::Log("Disconnected from server".to_string())),
    ]
}

#[test]
fn client_keeps_its_address() {
    let client = Client::new("10.0.0.1:24800");
    assert_eq!(client.addr(), "10.0.0.1:24800");
    assert_eq!(
        client.connecting_event(),
        ClientEvent::Log("Connecting to 10.0.0.1:24800...".to_string())
    );
}

#[test]
fn hello_announces_one_primary_screen() {
    assert_eq!(
        session().hello(),
        Message::Hello {
            device_id: DeviceId("me".to_string()),
            device_name: "my name".to_string(),
            screens: vec![ScreenInfo {
                id: ScreenId(0),
                name: "primary".to_string(),
                rect: ScreenRect { x: 0, y: 0, width: 1280, height: 720 },
                is_primary: true,
            }],
        }
    );
}

#[test]
fn welcome_completes_the_handshake() {
    let mut s = session();
    assert_eq!(s.phase(), Phase::Greeting);
    assert_eq!(
        s.step(welcome()),
        vec![
            ClientAction::Notify(ClientEvent::Connected {
                server_device_id: "ctl".to_string(),
                server_device_name: "controller".to_string(),
            }),
            ClientAction::Notify(ClientEvent::Log("Connected to server".to_string())),
        ]
    );
    assert_eq!(s.phase(), Phase::Ready);
    assert_eq!(s.outcome(), Ok(()));
}

#[test]
fn frames_before_welcome_are_dropped() {
    let mut s = session();
    assert_eq!(
        s.step(ConnectionEvent::Frame(Message::Ping(1))),
        vec![ClientAction::Discard(Message::Ping(1))]
    );
    assert_eq!(
        s.step(ConnectionEvent::Frame(Message::MouseMove { x: 1, y: 2 })),
        vec![ClientAction::Discard(Message::MouseMove { x: 1, y: 2 })]
    );
    assert_eq!(s.step(ConnectionEvent::Outbound(Message::Ping(1))), vec![]);
    assert_eq!(s.phase(), Phase::Greeting);
    assert_eq!(s.step(welcome()).len(), 2);
}

#[test]
fn greeting_can_end_three_ways() {
    let ends = vec![
        (ConnectionEvent::Cancelled, Ok(())),
        (ConnectionEvent::Closed, Err(SessionError::ClosedBeforeWelcome)),
        (ConnectionEvent::ReceiveFailed, Err(SessionError::Transport)),
        (ConnectionEvent::SendFailed, Err(SessionError::Transport)),
    ];
    for (event, outcome) in ends {
        let mut s = session();
        assert_eq!(s.step(event), vec![]);
        assert_eq!(s.phase(), Phase::Closed);
        assert_eq!(s.outcome(), outcome);
    }
}

#[test]
fn heartbeat() {
    let mut s = ready();
    assert_eq!(
        s.step(ConnectionEvent::Frame(Message::Ping(9))),
        vec![ClientAction::Send(Message::Pong(9))]
    );
    assert_eq!(s.step(ConnectionEvent::Frame(Message::Pong(9))), vec![]);
    assert_eq!(s.phase(), Phase::Ready);
}

#[test]
fn input_is_delivered_upwards() {
    let mut s = ready();
    let key = Message::KeyEvent { key: KeyCode::Enter, action: KeyAction::Press };
    assert_eq!(
        s.step(ConnectionEvent::Frame(key.clone())),
        vec![ClientAction::Deliver(key)]
    );
    let clip = Message::ClipboardText { text: "hi".to_string() };
    assert_eq!(
        s.step(ConnectionEvent::Frame(clip.clone())),
        vec![ClientAction::Deliver(clip)]
    );
}

#[test]
fn own_clipboard_is_sent_back() {
    let mut s = ready();
    let clip = Message::ClipboardText { text: "hi".to_string() };
    assert_eq!(
        s.step(ConnectionEvent::Outbound(clip.clone())),
        vec![ClientAction::Send(clip)]
    );
}

#[test]
fn cancellation_says_bye() {
    let mut s = ready();
    assert_eq!(s.step(ConnectionEvent::Cancelled), farewell());
    assert_eq!(s.phase(), Phase::Closed);
    assert_eq!(s.outcome(), Ok(()));
}

#[test]
fn bye_from_the_controller_closes_cleanly() {
    let mut s = ready();
    let bye = Message::Bye { device_id: DeviceId("ctl".to_string()) };
    assert_eq!(s.step(ConnectionEvent::Frame(bye)), farewell());
    assert_eq!(s.phase(), Phase::Closed);
    assert_eq!(s.outcome(), Ok(()));
}

#[test]
fn loss_of_the_controller_ends_the_session() {
    for event in [ConnectionEvent::Closed, ConnectionEvent::ReceiveFailed] {
        let mut s = ready();
        assert_eq!(s.step(event), farewell());
        assert_eq!(s.phase(), Phase::Closed);
        assert_eq!(s.outcome(), Ok(()));
    }
}

#[test]
fn failed_write_does_not_end_the_connection() {
    let mut s = ready();
    assert_eq!(s.step(ConnectionEvent::SendFailed), vec![]);
    assert_eq!(s.phase(), Phase::Ready);
}

#[test]
fn closed_session_does_nothing() {
    let mut s = ready();
    s.step(ConnectionEvent::Closed);
    assert_eq!(s.step(ConnectionEvent::Frame(Message::Ping(1))), vec![]);
    assert_eq!(s.step(ConnectionEvent::Cancelled), vec![]);
    assert_eq!(s.step(welcome()), vec![]);
    assert_eq!(s.phase(), Phase::Closed);
}
