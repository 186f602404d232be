use synapse::edges::EdgeDevice;
use synapse::events::{LocalAction, ServerEvent};
use synapse::focus::{FocusManager, FocusState, RouteAction, EDGE_THRESHOLD};
use synapse::input::{ButtonAction, KeyAction, KeyCode, MouseButton};
use synapse::message::Message;
use synapse::screen::{from_pixels, Edge, ScreenId, ScreenPosition};

fn fixed(v: f64) -> i64 {
    (v * 65536.0).round() as i64
}

fn mouse_move(x: f64, y: f64) -> Message {
    Message::MouseMove { x: fixed(x), y: fixed(y) }
}

fn send(device: &str, message: Message) -> RouteAction {
    RouteAction::Send { device_id: device.to_string(), message }
}

fn recenter() -> RouteAction {
    RouteAction::Local(LocalAction::MoveMouse(960, 540))
}

fn remote(device: &str, vx: f64, vy: f64, entered: Edge) -> FocusState {
    FocusState::Remote {
        device_id: device.to_string(),
        virtual_x: fixed(vx),
        virtual_y: fixed(vy),
        remote_w: 1920,
        remote_h: 1080,
        entered_edge: entered,
    }
}

/// A controller of 1920 by 1080 with the peer `P` of the same size behind
/// its right edge.
fn controller_with_peer() -> FocusManager {
    let mut fm = FocusManager::new(1920, 1080);
    fm.set_edge_device(Edge::Right, "P".to_string(), 1920, 1080);
    fm
}

/// The same, with the focus on `P` at the virtual position (0, 540).
fn focused_on_peer() -> FocusManager {
    let mut fm = controller_with_peer();
    let actions = fm.handle_input_message(mouse_move(1919.0, 540.0));
    assert_eq!(actions.len(), 4);
    assert_eq!(*fm.state(), remote("P", 0.0, 540.0, Edge::Right));
    fm
}

#[test]
fn new_manager_has_local_focus() {
    let fm = FocusManager::new(1920, 1080);
    assert_eq!(*fm.state(), FocusState::Local);
    assert_eq!(fm.center(), (960, 540));
    assert_eq!(fm.screen_size(), (1920, 1080));
    assert!(fm.edge_device(Edge::Left).is_none());
    assert!(fm.edge_device(Edge::Right).is_none());
    assert!(fm.edge_device(Edge::Top).is_none());
    assert!(fm.edge_device(Edge::Bottom).is_none());
}

#[test]
fn center_of_an_odd_screen_rounds_down() {
    let fm = FocusManager::new(1367, 769);
    assert_eq!(fm.center(), (683, 384));
}

#[test]
fn threshold_is_two_pixels() {
    assert_eq!(EDGE_THRESHOLD, from_pixels(2));
    assert_eq!(from_pixels(1), 65536);
}

#[test]
fn check_edge_finds_each_edge() {
    let fm = FocusManager::new(1920, 1080);
    assert_eq!(fm.check_edge(fixed(2.0), fixed(500.0)), Some(Edge::Left));
    assert_eq!(fm.check_edge(fixed(0.0), fixed(500.0)), Some(Edge::Left));
    assert_eq!(fm.check_edge(fixed(1918.0), fixed(500.0)), Some(Edge::Right));
    assert_eq!(fm.check_edge(fixed(1918.1), fixed(400.0)), Some(Edge::Right));
    assert_eq!(fm.check_edge(fixed(500.0), fixed(2.0)), Some(Edge::Top));
    assert_eq!(fm.check_edge(fixed(500.0), fixed(1078.0)), Some(Edge::Bottom));
    assert_eq!(fm.check_edge(fixed(500.0), fixed(500.0)), None);
}

#[test]
fn check_edge_is_exact_at_the_threshold() {
    let fm = FocusManager::new(1920, 1080);
    assert_eq!(fm.check_edge(fixed(2.0) + 1, fixed(500.0)), None);
    assert_eq!(fm.check_edge(fixed(1918.0) - 1, fixed(500.0)), None);
    assert_eq!(fm.check_edge(fixed(500.0), fixed(2.0) + 1), None);
    assert_eq!(fm.check_edge(fixed(500.0), fixed(1078.0) - 1), None);
}

#[test]
fn check_edge_prefers_left_and_right_in_corners() {
    let fm = FocusManager::new(1920, 1080);
    assert_eq!(fm.check_edge(fixed(0.0), fixed(0.0)), Some(Edge::Left));
    assert_eq!(fm.check_edge(fixed(0.0), fixed(1080.0)), Some(Edge::Left));
    assert_eq!(fm.check_edge(fixed(1920.0), fixed(0.0)), Some(Edge::Right));
    assert_eq!(fm.check_edge(fixed(1920.0), fixed(1080.0)), Some(Edge::Right));
}

#[test]
fn opposite_edge_swaps_sides() {
    assert_eq!(FocusManager::opposite_edge(&Edge::Left), Edge::Right);
    assert_eq!(FocusManager::opposite_edge(&Edge::Right), Edge::Left);
    assert_eq!(FocusManager::opposite_edge(&Edge::Top), Edge::Bottom);
    assert_eq!(FocusManager::opposite_edge(&Edge::Bottom), Edge::Top);
}

#[test]
fn entry_position_projects_in_proportion() {
    // A controller of 1920 by 1080 and a peer of 2560 by 1440.
    let at = |edge, x: f64, y: f64| {
        FocusManager::entry_position(&edge, fixed(x), fixed(y), 1920, 1080, 2560, 1440)
    };
    assert_eq!(at(Edge::Right, 1919.0, 540.0), (0, fixed(720.0)));
    assert_eq!(at(Edge::Left, 0.0, 270.0), (fixed(2560.0), fixed(360.0)));
    assert_eq!(at(Edge::Bottom, 960.0, 1079.0), (fixed(1280.0), 0));
    assert_eq!(at(Edge::Top, 480.0, 0.0), (fixed(640.0), fixed(1440.0)));
}

#[test]
fn entry_position_rounds_down_to_the_unit() {
    // 1 unit * 1 / 3 is a third of a unit, which is no unit.
    assert_eq!(FocusManager::entry_position(&Edge::Right, 0, 1, 3, 3, 1, 1), (0, 0));
    assert_eq!(FocusManager::entry_position(&Edge::Right, 0, 5, 3, 3, 1, 1), (0, 1));
    assert_eq!(FocusManager::entry_position(&Edge::Bottom, 7, 0, 2, 2, 1, 1), (3, 0));
}

#[test]
fn entry_position_stays_on_the_remote_screen() {
    let below = FocusManager::entry_position(&Edge::Right, 0, fixed(5000.0), 1920, 1080, 800, 600);
    assert_eq!(below, (0, fixed(600.0)));
    let above = FocusManager::entry_position(&Edge::Right, 0, fixed(-50.0), 1920, 1080, 800, 600);
    assert_eq!(above, (0, 0));
    let far = FocusManager::entry_position(&Edge::Top, i64::MAX, 0, 1, 1, u32::MAX, u32::MAX);
    assert_eq!(far, (u32::MAX as i64 * 65536, u32::MAX as i64 * 65536));
    let near = FocusManager::entry_position(&Edge::Top, i64::MIN, 0, 1, 1, u32::MAX, u32::MAX);
    assert_eq!(near, (0, u32::MAX as i64 * 65536));
}

#[test]
fn check_virtual_edge_looks_at_the_opposite_edge() {
    let w = 1920;
    let h = 1080;
    assert!(FocusManager::check_virtual_edge(0, fixed(5.0), w, h, &Edge::Right));
    assert!(!FocusManager::check_virtual_edge(1, fixed(5.0), w, h, &Edge::Right));
    assert!(FocusManager::check_virtual_edge(fixed(1920.0), 0, w, h, &Edge::Left));
    assert!(!FocusManager::check_virtual_edge(fixed(1920.0) - 1, 0, w, h, &Edge::Left));
    assert!(FocusManager::check_virtual_edge(fixed(5.0), 0, w, h, &Edge::Bottom));
    assert!(!FocusManager::check_virtual_edge(fixed(5.0), 1, w, h, &Edge::Bottom));
    assert!(FocusManager::check_virtual_edge(0, fixed(1080.0), w, h, &Edge::Top));
    assert!(!FocusManager::check_virtual_edge(0, fixed(1080.0) - 1, w, h, &Edge::Top));
}

#[test]
fn dead_band_produces_nothing() {
    let mut fm = focused_on_peer();
    let actions = fm.handle_input_message(mouse_move(960.0, 540.0));
    assert_eq!(actions, vec![]);
    assert_eq!(*fm.state(), remote("P", 0.0, 540.0, Edge::Right));
}

#[test]
fn delta_preservation() {
    let mut fm = focused_on_peer();
    let first = fm.handle_input_message(mouse_move(970.0, 540.0));
    let second = fm.handle_input_message(mouse_move(960.0, 540.0));
    assert_eq!(
        first,
        vec![send("P", Message::MouseDelta { dx: fixed(10.0), dy: 0 }), recenter()]
    );
    assert_eq!(second, vec![]);
    assert_eq!(*fm.state(), remote("P", 10.0, 540.0, Edge::Right));
}

#[test]
fn reverse_exit() {
    let mut fm = focused_on_peer();
    let actions = fm.handle_input_message(mouse_move(958.0, 540.0));
    assert_eq!(
        actions,
        vec![
            send(
                "P",
                Message::LeaveScreen {
                    screen_id: ScreenId(0),
                    edge: Edge::Left,
                    position: ScreenPosition { x: 0, y: fixed(540.0) },
                },
            ),
            RouteAction::Notify(ServerEvent::FocusChanged { target: "local".to_string() }),
        ]
    );
    assert_eq!(*fm.state(), FocusState::Local);
    // Back home, moves away from the edges are quiet.
    assert_eq!(fm.handle_input_message(mouse_move(958.0, 540.0)), vec![]);
    assert_eq!(fm.handle_input_message(mouse_move(100.0, 100.0)), vec![]);
    assert_eq!(fm.handle_input_message(mouse_move(1.0, 100.0)), vec![]);
    assert_eq!(*fm.state(), FocusState::Local);
    // Until the bound edge is hit again.
    assert_eq!(fm.handle_input_message(mouse_move(1919.0, 100.0)).len(), 4);
    assert_eq!(*fm.state(), remote("P", 0.0, 100.0, Edge::Right));
}

#[test]
fn edge_occupancy_second_peer_replaces_first() {
    let mut fm = FocusManager::new(1920, 1080);
    fm.set_edge_device(Edge::Right, "A".to_string(), 800, 600);
    fm.set_edge_device(Edge::Right, "B".to_string(), 1024, 768);
    assert_eq!(
        fm.edge_device(Edge::Right),
        Some(&EdgeDevice { device_id: "B".to_string(), width: 1024, height: 768 })
    );
    assert!(fm.edge_device(Edge::Left).is_none());
    let actions = fm.handle_input_message(mouse_move(1919.0, 540.0));
    assert_eq!(actions[1], send(
        "B",
        Message::EnterScreen {
            screen_id: ScreenId(0),
            position: ScreenPosition { x: 0, y: fixed(384.0) },
        },
    ));
}

#[test]
fn one_peer_may_hold_two_edges() {
    let mut fm = FocusManager::new(1920, 1080);
    fm.set_edge_device(Edge::Right, "A".to_string(), 800, 600);
    fm.set_edge_device(Edge::Left, "A".to_string(), 800, 600);
    fm.set_edge_device(Edge::Top, "B".to_string(), 800, 600);
    fm.remove_device("A");
    assert!(fm.edge_device(Edge::Right).is_none());
    assert!(fm.edge_device(Edge::Left).is_none());
    assert_eq!(fm.edge_device(Edge::Top).map(|d| d.device_id.as_str()), Some("B"));
}

#[test]
fn disconnect_while_focused_reverts_to_local() {
    let mut fm = focused_on_peer();
    fm.remove_device("P");
    assert_eq!(*fm.state(), FocusState::Local);
    assert!(fm.edge_device(Edge::Right).is_none());
    // Nothing is bound to the right edge any more.
    assert_eq!(fm.handle_input_message(mouse_move(1919.0, 540.0)), vec![]);
    assert_eq!(*fm.state(), FocusState::Local);
}

#[test]
fn removing_another_device_keeps_the_focus() {
    let mut fm = focused_on_peer();
    fm.set_edge_device(Edge::Left, "Q".to_string(), 800, 600);
    fm.remove_device("Q");
    assert_eq!(*fm.state(), remote("P", 0.0, 540.0, Edge::Right));
    assert!(fm.edge_device(Edge::Left).is_none());
    assert!(fm.edge_device(Edge::Right).is_some());
}

#[test]
fn scenario_entry() {
    let mut fm = controller_with_peer();
    let actions = fm.handle_input_message(mouse_move(1918.1, 400.0));
    let position = ScreenPosition { x: 0, y: fixed(400.0) };
    assert_eq!(
        actions,
        vec![
            recenter(),
            send("P", Message::EnterScreen { screen_id: ScreenId(0), position }),
            send("P", Message::MouseMove { x: 0, y: fixed(400.0) }),
            RouteAction::Notify(ServerEvent::FocusChanged { target: "P".to_string() }),
        ]
    );
    assert_eq!(*fm.state(), remote("P", 0.0, 400.0, Edge::Right));
}

#[test]
fn scenario_forward_motion() {
    let mut fm = controller_with_peer();
    fm.handle_input_message(mouse_move(1918.1, 400.0));
    let actions = fm.handle_input_message(mouse_move(980.0, 530.0));
    assert_eq!(
        actions,
        vec![
            send("P", Message::MouseDelta { dx: fixed(20.0), dy: fixed(-10.0) }),
            recenter(),
        ]
    );
    assert_eq!(*fm.state(), remote("P", 20.0, 390.0, Edge::Right));
}

#[test]
fn scenario_exit() {
    let mut fm = controller_with_peer();
    fm.handle_input_message(mouse_move(1918.1, 400.0));
    fm.handle_input_message(mouse_move(980.0, 530.0));
    let actions = fm.handle_input_message(mouse_move(760.0, 540.0));
    assert_eq!(
        actions,
        vec![
            send(
                "P",
                Message::LeaveScreen {
                    screen_id: ScreenId(0),
                    edge: Edge::Left,
                    position: ScreenPosition { x: 0, y: fixed(390.0) },
                },
            ),
            RouteAction::Notify(ServerEvent::FocusChanged { target: "local".to_string() }),
        ]
    );
    assert_eq!(*fm.state(), FocusState::Local);
}

#[test]
fn scenario_key_while_remote() {
    let mut fm = focused_on_peer();
    let key = Message::KeyEvent { key: KeyCode::KeyA, action: KeyAction::Press };
    assert_eq!(fm.handle_input_message(key.clone()), vec![send("P", key)]);
    assert_eq!(*fm.state(), remote("P", 0.0, 540.0, Edge::Right));
}

#[test]
fn input_while_remote_is_forwarded_unchanged() {
    let mut fm = focused_on_peer();
    let events = vec![
        Message::MouseButtonEvent { button: MouseButton::Left, action: ButtonAction::Press },
        Message::MouseButtonEvent { button: MouseButton::Forward, action: ButtonAction::Release },
        Message::MouseScroll { dx: 0, dy: fixed(-3.0) },
        Message::KeyEvent { key: KeyCode::Unknown(77), action: KeyAction::Release },
        Message::ClipboardText { text: "hi".to_string() },
        Message::ClipboardImage { width: 2, height: 1, data: vec![1, 2, 3, 4, 5, 6, 7, 8] },
    ];
    for event in events {
        assert_eq!(fm.handle_input_message(event.clone()), vec![send("P", event)]);
    }
    assert_eq!(*fm.state(), remote("P", 0.0, 540.0, Edge::Right));
}

#[test]
fn connection_messages_are_never_routed() {
    let mut fm = focused_on_peer();
    assert_eq!(fm.handle_input_message(Message::Ping(1)), vec![]);
    assert_eq!(fm.handle_input_message(Message::Pong(1)), vec![]);
    assert_eq!(
        fm.handle_input_message(Message::MouseDelta { dx: fixed(3.0), dy: 0 }),
        vec![]
    );
    assert_eq!(*fm.state(), remote("P", 0.0, 540.0, Edge::Right));
}

#[test]
fn everything_but_moves_is_dropped_while_local() {
    let mut fm = controller_with_peer();
    let events = vec![
        Message::KeyEvent { key: KeyCode::KeyA, action: KeyAction::Press },
        Message::MouseButtonEvent { button: MouseButton::Left, action: ButtonAction::Press },
        Message::MouseScroll { dx: 0, dy: fixed(1.0) },
        Message::ClipboardText { text: "hi".to_string() },
        Message::Ping(7),
    ];
    for event in events {
        assert_eq!(fm.handle_input_message(event), vec![]);
    }
    assert_eq!(*fm.state(), FocusState::Local);
}

#[test]
fn edge_without_device_does_not_take_the_focus() {
    let mut fm = controller_with_peer();
    assert_eq!(fm.handle_input_message(mouse_move(0.0, 540.0)), vec![]);
    assert_eq!(fm.handle_input_message(mouse_move(960.0, 0.0)), vec![]);
    assert_eq!(fm.handle_input_message(mouse_move(960.0, 1080.0)), vec![]);
    assert_eq!(*fm.state(), FocusState::Local);
}

#[test]
fn virtual_pointer_is_clamped_to_the_remote_screen() {
    let mut fm = focused_on_peer();
    fm.handle_input_message(mouse_move(1060.0, 540.0));
    // Far down and right: the pointer stops at the far corner.
    let actions = fm.handle_input_message(mouse_move(960.0 + 5000.0, 540.0 + 5000.0));
    assert_eq!(
        actions,
        vec![
            send("P", Message::MouseDelta { dx: fixed(5000.0), dy: fixed(5000.0) }),
            recenter(),
        ]
    );
    assert_eq!(*fm.state(), remote("P", 1920.0, 1080.0, Edge::Right));
    // Far up: the pointer stops at the top.
    fm.handle_input_message(mouse_move(960.0, 540.0 - 9000.0));
    assert_eq!(*fm.state(), remote("P", 1920.0, 0.0, Edge::Right));
}

#[test]
fn extreme_positions_do_not_overflow() {
    let mut fm = focused_on_peer();
    fm.handle_input_message(mouse_move(1060.0, 540.0));
    let actions = fm.handle_input_message(Message::MouseMove { x: i64::MAX, y: i64::MIN });
    assert_eq!(
        actions,
        vec![
            send(
                "P",
                Message::MouseDelta { dx: i64::MAX - fixed(960.0), dy: i64::MIN },
            ),
            recenter(),
        ]
    );
    assert_eq!(*fm.state(), remote("P", 1920.0, 0.0, Edge::Right));
}

#[test]
fn entry_from_each_edge_and_exit_through_the_opposite() {
    let cases = vec![
        (Edge::Left, (1.0, 540.0), (1920.0, 540.0), (970.0, 540.0), Edge::Right),
        (Edge::Top, (960.0, 1.0), (960.0, 1080.0), (960.0, 550.0), Edge::Bottom),
        (Edge::Bottom, (960.0, 1079.0), (960.0, 0.0), (960.0, 530.0), Edge::Top),
    ];
    for (edge, cursor, entry, push, exit) in cases {
        let mut fm = FocusManager::new(1920, 1080);
        fm.set_edge_device(edge, "P".to_string(), 1920, 1080);
        fm.handle_input_message(mouse_move(cursor.0, cursor.1));
        assert_eq!(*fm.state(), remote("P", entry.0, entry.1, edge));
        let actions = fm.handle_input_message(mouse_move(push.0, push.1));
        assert_eq!(
            actions[0],
            send(
                "P",
                Message::LeaveScreen {
                    screen_id: ScreenId(0),
                    edge: exit,
                    position: ScreenPosition { x: fixed(entry.0), y: fixed(entry.1) },
                },
            )
        );
        assert_eq!(*fm.state(), FocusState::Local);
    }
}
