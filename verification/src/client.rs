//! The peer: the state machine of its one connection to the controller.

use vstd::prelude::*;
use vstd::string::StringExecFns;
use crate::connection::{phase_rank, ConnectionEvent, ConnectionEventView, Phase, SessionError};
use crate::events::{ClientEvent, ClientEventView};
use crate::message::{screens_view, DeviceId, Message, MessageView};
use crate::screen::{primary_screen, primary_screen_info};

verus! {

/// One thing that the handler of the connection to the controller has to
/// do, in the order in which it is due.
#[derive(Debug, Clone, PartialEq, Eq)]
pub enum ClientAction {
    /// Write this message to the controller as a frame, as far as the
    /// connection still allows. If the write fails, the connection goes on.
    Send(Message),
    /// Hand this message of the controller to the layer above, which
    /// injects input and sets the clipboard.
    Deliver(Message),
    /// Log this message and drop it: it came before the handshake was
    /// answered and is no answer to it.
    Discard(Message),
    /// Tell the observers.
    Notify(ClientEvent),
}

/// A `ClientAction` as a mathematical value.
pub enum ClientActionView {
    Send(MessageView),
    Deliver(MessageView),
    Discard(MessageView),
    Notify(ClientEventView),
}

impl View for ClientAction {
    type V = ClientActionView;

    open spec fn view(&self) -> ClientActionView {
        match *self {
            ClientAction::Send(m) => ClientActionView::Send(m@),
            ClientAction::Deliver(m) => ClientActionView::Deliver(m@),
            ClientAction::Discard(m) => ClientActionView::Discard(m@),
            ClientAction::Notify(e) => ClientActionView::Notify(e@),
        }
    }
}

/// A list of actions as mathematical values.
pub open spec fn client_actions_view(actions: Seq<ClientAction>) -> Seq<ClientActionView> {
    actions.map_values(|a: ClientAction| a@)
}

/// The line that the log gets once the handshake is done.
pub open spec fn connected_line() -> Seq<char> {
    "Connected to server"@
}

/// The line that the log gets once the connection is over.
pub open spec fn disconnected_line() -> Seq<char> {
    "Disconnected from server"@
}

/// The peer's end of its connection, as a mathematical value.
pub struct ClientSessionModel {
    pub phase: Phase,
    /// The peer's own id.
    pub device_id: Seq<char>,
    /// The peer's own name.
    pub device_name: Seq<char>,
    /// The size of the peer's screen in pixels, width first.
    pub screen_size: (u32, u32),
    /// Why the handler ends with an error, if it does.
    pub error: Option<SessionError>,
}

/// What a step of the connection gives: the connection after it, and
/// what is to be done.
pub struct ClientStep {
    pub session: ClientSessionModel,
    pub actions: Seq<ClientActionView>,
}

impl ClientSessionModel {
    /// A connection that was just made.
    pub open spec fn initial(
        device_id: Seq<char>,
        device_name: Seq<char>,
        screen_size: (u32, u32),
    ) -> ClientSessionModel {
        ClientSessionModel { phase: Phase::Greeting, device_id, device_name, screen_size, error: None }
    }

    /// The message that opens the handshake: who the peer is, and its one
    /// screen.
    pub open spec fn hello(self) -> MessageView {
        MessageView::Hello {
            device_id: self.device_id,
            device_name: self.device_name,
            screens: seq![primary_screen(self.screen_size.0, self.screen_size.1)],
        }
    }

    /// The end of a connection whose handshake was done, for whatever
    /// reason: the peer tries to tell the controller `Bye`, and the
    /// observers hear that the connection is over.
    pub open spec fn terminate(self) -> ClientStep {
        ClientStep {
            session: ClientSessionModel { phase: Phase::Closed, ..self },
            actions: seq![
                ClientActionView::Send(MessageView::Bye { device_id: self.device_id }),
                ClientActionView::Notify(ClientEventView::Disconnected),
                ClientActionView::Notify(ClientEventView::Log(disconnected_line())),
            ],
        }
    }

    /// The end of a connection whose handshake was never done.
    pub open spec fn abandon(self, error: Option<SessionError>) -> ClientStep {
        ClientStep {
            session: ClientSessionModel { phase: Phase::Closed, error, ..self },
            actions: Seq::empty(),
        }
    }

    /// A step that changes nothing but asks for `actions`.
    pub open spec fn stay(self, actions: Seq<ClientActionView>) -> ClientStep {
        ClientStep { session: self, actions }
    }

    /// The step for an event before the handshake is answered. A `Welcome`
    /// answers it; any other frame is dropped.
    pub open spec fn greet(self, event: ConnectionEventView) -> ClientStep {
        match event {
            ConnectionEventView::Frame(MessageView::Welcome { device_id, device_name, .. }) => {
                ClientStep {
                    session: ClientSessionModel { phase: Phase::Ready, ..self },
                    actions: seq![
                        ClientActionView::Notify(
                            ClientEventView::Connected {
                                server_device_id: device_id,
                                server_device_name: device_name,
                            },
                        ),
                        ClientActionView::Notify(ClientEventView::Log(connected_line())),
                    ],
                }
            },
            ConnectionEventView::Frame(message) => self.stay(
                seq![ClientActionView::Discard(message)],
            ),
            ConnectionEventView::Outbound(_) => self.stay(Seq::empty()),
            ConnectionEventView::Cancelled => self.abandon(None),
            ConnectionEventView::Closed => self.abandon(Some(SessionError::ClosedBeforeWelcome)),
            ConnectionEventView::ReceiveFailed => self.abandon(Some(SessionError::Transport)),
            ConnectionEventView::SendFailed => self.abandon(Some(SessionError::Transport)),
        }
    }

    /// The step for an event once the handshake is done.
    pub open spec fn serve(self, event: ConnectionEventView) -> ClientStep {
        match event {
            ConnectionEventView::Frame(MessageView::Ping(seq)) => self.stay(
                seq![ClientActionView::Send(MessageView::Pong(seq))],
            ),
            ConnectionEventView::Frame(MessageView::Pong(_)) => self.stay(Seq::empty()),
            ConnectionEventView::Frame(MessageView::Bye { .. }) => self.terminate(),
            ConnectionEventView::Frame(message) => self.stay(
                seq![ClientActionView::Deliver(message)],
            ),
            ConnectionEventView::Outbound(message) => self.stay(
                seq![ClientActionView::Send(message)],
            ),
            ConnectionEventView::Cancelled => self.terminate(),
            ConnectionEventView::Closed => self.terminate(),
            ConnectionEventView::ReceiveFailed => self.terminate(),
            ConnectionEventView::SendFailed => self.stay(Seq::empty()),
        }
    }

    /// The step for an event, whatever the phase. A closed connection
    /// takes no further step.
    pub open spec fn step(self, event: ConnectionEventView) -> ClientStep {
        match self.phase {
            Phase::Greeting => self.greet(event),
            Phase::Ready => self.serve(event),
            Phase::Closed => self.stay(Seq::empty()),
        }
    }
}

/// The peer's end of its connection to the controller.
#[derive(Debug)]
pub struct ClientSession {
    phase: Phase,
    device_id: String,
    device_name: String,
    screen_size: (u32, u32),
    error: Option<SessionError>,
}

impl View for ClientSession {
    type V = ClientSessionModel;

    closed spec fn view(&self) -> ClientSessionModel {
        ClientSessionModel {
            phase: self.phase,
            device_id: self.device_id@,
            device_name: self.device_name@,
            screen_size: self.screen_size,
            error: self.error,
        }
    }
}

impl ClientSession {
    /// The session of a connection that was just made, for the peer
    /// `device_id` called `device_name` with a screen of `screen_size`
    /// pixels, width first.
    pub fn new(device_id: String, device_name: String, screen_size: (u32, u32)) -> (session: Self)
        ensures
            session@ == ClientSessionModel::initial(device_id@, device_name@, screen_size),
    {
        ClientSession { phase: Phase::Greeting, device_id, device_name, screen_size, error: None }
    }

    /// Where the connection is in its life.
    pub fn phase(&self) -> (phase: Phase)
        ensures
            phase == self@.phase,
    {
        self.phase
    }

    /// How the handler of the connection ends.
    pub fn outcome(&self) -> (outcome: Result<(), SessionError>)
        ensures
            outcome == match self@.error {
                Some(e) => Err::<(), SessionError>(e),
                None => Ok::<(), SessionError>(()),
            },
    {
        match self.error {
            Some(e) => Err(e),
            None => Ok(()),
        }
    }

    /// The message that opens the handshake. The peer sends it first.
    pub fn hello(&self) -> (message: Message)
        ensures
            message@ == self@.hello(),
    {
        let screens = vec![primary_screen_info(self.screen_size.0, self.screen_size.1)];
        assert(screens_view(screens@) =~= seq![
            primary_screen(self.screen_size.0, self.screen_size.1),
        ]);
        Message::Hello {
            device_id: DeviceId(self.device_id.clone()),
            device_name: self.device_name.clone(),
            screens,
        }
    }

    /// Takes one event of the connection and says what is to be done for
    /// it.
    pub fn step(&mut self, event: ConnectionEvent) -> (actions: Vec<ClientAction>)
        ensures
            (ClientStep { session: final(self)@, actions: client_actions_view(actions@) }) == old(
                self,
            )@.step(event@),
    {
        let mut actions: Vec<ClientAction> = Vec::new();
        match self.phase {
            Phase::Greeting => match event {
                ConnectionEvent::Frame(Message::Welcome { device_id, device_name, .. }) => {
                    actions.push(
                        ClientAction::Notify(
                            ClientEvent::Connected {
                                server_device_id: device_id.0,
                                server_device_name: device_name,
                            },
                        ),
                    );
                    actions.push(
                        ClientAction::Notify(ClientEvent::Log("Connected to server".to_owned())),
                    );
                    self.phase = Phase::Ready;
                },
                ConnectionEvent::Frame(message) => {
                    actions.push(ClientAction::Discard(message));
                },
                ConnectionEvent::Outbound(_) => {},
                ConnectionEvent::Cancelled => {
                    self.phase = Phase::Closed;
                    self.error = None;
                },
                ConnectionEvent::Closed => {
                    self.phase = Phase::Closed;
                    self.error = Some(SessionError::ClosedBeforeWelcome);
                },
                ConnectionEvent::ReceiveFailed => {
                    self.phase = Phase::Closed;
                    self.error = Some(SessionError::Transport);
                },
                ConnectionEvent::SendFailed => {
                    self.phase = Phase::Closed;
                    self.error = Some(SessionError::Transport);
                },
            },
            Phase::Ready => match event {
                ConnectionEvent::Frame(Message::Ping(seq)) => {
                    actions.push(ClientAction::Send(Message::Pong(seq)));
                },
                ConnectionEvent::Frame(Message::Pong(_)) => {},
                ConnectionEvent::Frame(Message::Bye { .. }) => {
                    self.terminate(&mut actions);
                },
                ConnectionEvent::Frame(message) => {
                    actions.push(ClientAction::Deliver(message));
                },
                ConnectionEvent::Outbound(message) => {
                    actions.push(ClientAction::Send(message));
                },
                ConnectionEvent::Cancelled => {
                    self.terminate(&mut actions);
                },
                ConnectionEvent::Closed => {
                    self.terminate(&mut actions);
                },
                ConnectionEvent::ReceiveFailed => {
                    self.terminate(&mut actions);
                },
                ConnectionEvent::SendFailed => {},
            },
            Phase::Closed => {},
        }
        assert(client_actions_view(actions@) =~= old(self)@.step(event@).actions);
        actions
    }

    /// Ends a connection whose handshake was done.
    fn terminate(&mut self, actions: &mut Vec<ClientAction>)
        requires
            old(actions)@.len() == 0,
        ensures
            (ClientStep { session: final(self)@, actions: client_actions_view(final(actions)@) })
                == old(self)@.terminate(),
    {
        self.phase = Phase::Closed;
        actions.push(
            ClientAction::Send(Message::Bye { device_id: DeviceId(self.device_id.clone()) }),
        );
        actions.push(ClientAction::Notify(ClientEvent::Disconnected));
        actions.push(ClientAction::Notify(ClientEvent::Log("Disconnected from server".to_owned())));
        assert(client_actions_view(actions@) =~= old(self)@.terminate().actions);
    }
}

/// The connection goes through its phases in one direction, and once
/// closed it stays closed and does nothing.
pub proof fn lemma_phase_never_goes_back(s: ClientSessionModel, event: ConnectionEventView)
    ensures
        phase_rank(s.step(event).session.phase) >= phase_rank(s.phase),
        s.phase == Phase::Closed ==> s.step(event) == s.stay(Seq::empty()),
        s.step(event).session.device_id == s.device_id,
        s.step(event).session.device_name == s.device_name,
        s.step(event).session.screen_size == s.screen_size,
{
}

/// The peer answers every `Ping` with a `Pong` of the same sequence
/// number, and with nothing else.
pub proof fn lemma_ping_pong(s: ClientSessionModel, seq: u64)
    requires
        s.phase == Phase::Ready,
    ensures
        s.step(ConnectionEventView::Frame(MessageView::Ping(seq))) == s.stay(
            seq![ClientActionView::Send(MessageView::Pong(seq))],
        ),
{
}

/// The peer's dialing side.
#[derive(Debug, Clone)]
pub struct Client {
    addr: String,
}

impl Client {
    /// A client that will connect to `addr`.
    pub fn new(addr: &str) -> (client: Self)
        ensures
            client.addr_view() == addr@,
    {
        Client { addr: addr.to_owned() }
    }

    /// The address to connect to, as a mathematical value.
    pub closed spec fn addr_view(&self) -> Seq<char> {
        self.addr@
    }

    /// The address to connect to.
    pub fn addr(&self) -> (addr: &String)
        ensures
            addr@ == self.addr_view(),
    {
        &self.addr
    }

    /// The line that the log gets before the client connects.
    pub fn connecting_event(&self) -> (event: ClientEvent)
        ensures
            event@ == ClientEventView::Log("Connecting to "@ + self.addr_view() + "..."@),
    {
        ClientEvent::Log(String::from_str("Connecting to ").concat(self.addr.as_str()).concat("..."))
    }
}

} // verus!
