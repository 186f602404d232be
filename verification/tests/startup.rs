use synapse::config::{
    direction_from_lower, parse_direction, ConfigError, DEFAULT_BIND, DEFAULT_DIRECTION, DEFAULT_PORT,
};
use synapse::discovery::{service_host, SERVICE_TYPE};
use synapse::events::{ClientEvent, ServerEvent};
use synapse::screen::Edge;
use synapse::status::{AppState, AppStatus, DeviceInfo, Role};

fn device(id: &str, name: &str) -> DeviceInfo {
    DeviceInfo { device_id: id.to_string(), device_name: name.to_string() }
}

fn connected(id: &str, name: &str) -> ServerEvent {
    ServerEvent::DeviceConnected { device_id: id.to_string(), device_name: name.to_string() }
}

fn idle() -> AppStatus {
    AppStatus { role: Role::Idle, connected: false, devices: vec![] }
}

#[test]
fn parse_direction_knows_the_four_edges() {
    assert_eq!(parse_direction("left"), Ok(Edge::Left));
    assert_eq!(parse_direction("right"), Ok(Edge::Right));
    assert_eq!(parse_direction("top"), Ok(Edge::Top));
    assert_eq!(parse_direction("bottom"), Ok(Edge::Bottom));
}

#[test]
fn defaults() {
    assert_eq!(DEFAULT_PORT, 24800);
    assert_eq!(DEFAULT_BIND, "0.0.0.0:24800");
    assert_eq!(parse_direction(DEFAULT_DIRECTION), Ok(Edge::Right));
}

#[test]
fn parse_direction_ignores_case() {
    assert_eq!(parse_direction("LEFT"), Ok(Edge::Left));
    assert_eq!(parse_direction("Right"), Ok(Edge::Right));
    assert_eq!(parse_direction("tOp"), Ok(Edge::Top));
    assert_eq!(parse_direction("BOTTOM"), Ok(Edge::Bottom));
}

#[test]
fn parse_direction_rejects_everything_else() {
    for s in ["", "up", "down", " left", "left ", "lefty", "rigth"] {
        assert_eq!(parse_direction(s), Err(ConfigError::UnknownDirection));
    }
}

#[test]
fn direction_from_lower_is_exact() {
    assert_eq!(direction_from_lower(&"top".to_string()), Ok(Edge::Top));
    assert_eq!(direction_from_lower(&"Top".to_string()), Err(ConfigError::UnknownDirection));
}

#[test]
fn service_host_is_in_the_local_domain() {
    assert_eq!(SERVICE_TYPE, "_flymouse._tcp.local.");
    assert_eq!(service_host("desk"), "desk.local.");
    assert_eq!(service_host(""), ".local.");
}

#[test]
fn app_starts_idle() {
    assert_eq!(AppState::default().get_status(), idle());
}

#[test]
fn start_server_once() {
    let mut s = AppState::default();
    assert_eq!(s.start_server(), Ok(()));
    assert_eq!(
        s.get_status(),
        AppStatus { role: Role::Server, connected: true, devices: vec![] }
    );
    assert_eq!(s.start_server(), Err("Already running".to_string()));
    assert_eq!(s.start_client(), Err("Already running".to_string()));
    assert_eq!(s.get_status().role, Role::Server);
}

#[test]
fn start_client_once() {
    let mut s = AppState::default();
    assert_eq!(s.start_client(), Ok(()));
    assert_eq!(
        s.get_status(),
        AppStatus { role: Role::Client, connected: false, devices: vec![] }
    );
    assert_eq!(s.start_server(), Err("Already running".to_string()));
    assert_eq!(s.start_client(), Err("Already running".to_string()));
}

#[test]
fn client_connection_shows_in_the_status() {
    let mut s = AppState::default();
    s.start_client().unwrap();
    s.apply_client_event(&ClientEvent::Log("x".to_string()));
    assert!(!s.get_status().connected);
    s.apply_client_event(&ClientEvent::Connected {
        server_device_id: "c".to_string(),
        server_device_name: "c".to_string(),
    });
    assert!(s.get_status().connected);
    s.apply_client_event(&ClientEvent::Disconnected);
    assert!(!s.get_status().connected);
    assert_eq!(s.get_status().role, Role::Client);
}

#[test]
fn devices_join_and_leave_the_list() {
    let mut s = AppState::default();
    s.start_server().unwrap();
    s.apply_server_event(&connected("a", "A"));
    s.apply_server_event(&connected("b", "B"));
    s.apply_server_event(&connected("a", "A again"));
    s.apply_server_event(&ServerEvent::FocusChanged { target: "a".to_string() });
    s.apply_server_event(&ServerEvent::Log("x".to_string()));
    assert_eq!(
        s.get_status().devices,
        vec![device("a", "A"), device("b", "B"), device("a", "A again")]
    );
    s.apply_server_event(&ServerEvent::DeviceDisconnected { device_id: "a".to_string() });
    assert_eq!(s.get_status().devices, vec![device("b", "B")]);
    s.apply_server_event(&ServerEvent::DeviceDisconnected { device_id: "zz".to_string() });
    assert_eq!(s.get_status().devices, vec![device("b", "B")]);
}

#[test]
fn stop_goes_back_to_idle() {
    let mut s = AppState::default();
    assert!(!s.stop());
    s.start_server().unwrap();
    s.apply_server_event(&connected("a", "A"));
    assert!(s.stop());
    assert_eq!(s.get_status(), idle());
    assert!(!s.stop());
    assert_eq!(s.start_client(), Ok(()));
    s.finish();
    assert_eq!(s.get_status(), idle());
}
