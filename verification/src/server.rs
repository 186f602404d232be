//! The controller: the state that its connections share, and the state
//! machine of one connection to a peer.

use vstd::prelude::*;
use vstd::string::StringExecFns;
use crate::connection::{phase_rank, ConnectionEvent, ConnectionEventView, Phase, SessionError};
use crate::edges::EdgeDeviceView;
use crate::events::{ServerEvent, ServerEventView};
use crate::focus::{FocusManager, FocusModel, FocusStateView, RouteAction, RouteActionView, actions_view};
use crate::message::{screens_view, DeviceId, Message, MessageView};
use crate::registry::PeerRegistry;
use crate::screen::{primary_screen, primary_screen_info, Edge, ScreenInfo, ScreenInfoView};

verus! {

/// The width and height taken for a peer that names no screen.
pub const DEFAULT_PEER_SIZE: (u32, u32) = (1920, 1080);

/// The screen size that a peer's handshake gives: that of the first
/// screen it names, or the default where it names none.
pub open spec fn peer_size(screens: Seq<ScreenInfoView>) -> (u32, u32) {
    if screens.len() > 0 {
        (screens[0].rect.width, screens[0].rect.height)
    } else {
        (1920, 1080)
    }
}

/// The line that the log gets when the device named `device_name` is gone.
pub open spec fn disconnect_line(device_name: Seq<char>) -> Seq<char> {
    "Device "@ + device_name + " disconnected"@
}

/// The state that the connections of a controller share, as a
/// mathematical value.
pub struct ControllerModel {
    pub focus: FocusModel,
    pub peers: Map<Seq<char>, (u32, u32)>,
    pub client_direction: Edge,
    pub name: Seq<char>,
}

impl ControllerModel {
    /// What a new controller is.
    pub open spec fn initial(
        name: Seq<char>,
        screen_w: u32,
        screen_h: u32,
        client_direction: Edge,
    ) -> ControllerModel {
        ControllerModel {
            focus: FocusModel::initial(screen_w, screen_h),
            peers: Map::empty(),
            client_direction,
            name,
        }
    }

    /// The focus manager is valid, and every device that has the focus or
    /// is bound to an edge is attached.
    pub open spec fn valid(self) -> bool {
        &&& self.focus.valid()
        &&& self.focus.state matches FocusStateView::Remote { device_id, .. }
            ==> self.peers.contains_key(device_id)
        &&& forall|e: Edge| #[trigger]
            self.focus.edges.contains_key(e) ==> self.peers.contains_key(
                self.focus.edges[e].device_id,
            )
    }

    /// The state after an event of the controller's own input went
    /// through the focus manager, and what is to be done for it.
    pub open spec fn route(self, message: MessageView) -> (ControllerModel, Seq<RouteActionView>) {
        (
            ControllerModel { focus: self.focus.handle(message).0, ..self },
            self.focus.handle(message).1,
        )
    }

    /// With the peer `device_id` attached and bound to the edge behind
    /// which the peers are.
    pub open spec fn attach(self, device_id: Seq<char>, screens: Seq<ScreenInfoView>) -> ControllerModel {
        let (width, height) = peer_size(screens);
        ControllerModel {
            focus: self.focus.set_edge_device(
                self.client_direction,
                EdgeDeviceView { device_id, width, height },
            ),
            peers: self.peers.insert(device_id, (width, height)),
            ..self
        }
    }

    /// With the peer `device_id` gone: the focus is local if it was on that
    /// peer, no edge is bound to it, and it is no longer attached.
    pub open spec fn detach(self, device_id: Seq<char>) -> ControllerModel {
        ControllerModel {
            focus: self.focus.remove_device(device_id),
            peers: self.peers.remove(device_id),
            ..self
        }
    }

    /// The answer to a peer's `Hello`: the controller's own name, as id
    /// and as name, and its screen.
    pub open spec fn welcome(self) -> MessageView {
        MessageView::Welcome {
            device_id: self.name,
            device_name: self.name,
            screens: seq![primary_screen(self.focus.screen_w, self.focus.screen_h)],
        }
    }
}

/// The state that the connections of a controller share: the focus
/// manager and the registry of attached peers. Every operation on it is one
/// step that nothing else interleaves with.
#[derive(Debug)]
pub struct Controller {
    focus: FocusManager,
    peers: PeerRegistry,
    client_direction: Edge,
    name: String,
}

impl View for Controller {
    type V = ControllerModel;

    closed spec fn view(&self) -> ControllerModel {
        ControllerModel {
            focus: self.focus@,
            peers: self.peers@,
            client_direction: self.client_direction,
            name: self.name@,
        }
    }
}

impl Controller {
    /// Whether the controller is in a state that its operations keep it in.
    pub open spec fn wf(&self) -> bool {
        self@.valid()
    }

    /// A controller called `name`, with a screen of `screen_size` pixels,
    /// width first, whose peers lie behind the edge `client_direction`.
    pub fn new(name: String, screen_size: (u32, u32), client_direction: Edge) -> (controller: Self)
        ensures
            controller.wf(),
            controller@ == ControllerModel::initial(
                name@,
                screen_size.0,
                screen_size.1,
                client_direction,
            ),
    {
        Controller {
            focus: FocusManager::new(screen_size.0, screen_size.1),
            peers: PeerRegistry::new(),
            client_direction,
            name,
        }
    }

    /// The focus manager.
    pub fn focus(&self) -> (focus: &FocusManager)
        ensures
            focus@ == self@.focus,
    {
        &self.focus
    }

    /// The attached peers.
    pub fn peers(&self) -> (peers: &PeerRegistry)
        ensures
            peers@ == self@.peers,
    {
        &self.peers
    }

    /// Puts one event of the controller's own input or clipboard through
    /// the focus manager.
    pub fn route(&mut self, message: Message) -> (actions: Vec<RouteAction>)
        ensures
            old(self).wf() ==> final(self).wf(),
            (final(self)@, actions_view(actions@)) == old(self)@.route(message@),
    {
        proof {
            if self@.valid() {
                lemma_route_keeps_valid(self@, message@);
            }
        }
        self.focus.handle_input_message(message)
    }

    /// Attaches the peer `device_id` after its handshake and binds it to
    /// the edge behind which the peers are.
    pub fn attach(&mut self, device_id: &String, screens: &Vec<ScreenInfo>)
        ensures
            old(self).wf() ==> final(self).wf(),
            final(self)@ == old(self)@.attach(device_id@, screens_view(screens@)),
    {
        proof {
            if self@.valid() {
                lemma_attach_keeps_valid(self@, device_id@, screens_view(screens@));
            }
        }
        let (width, height) = if screens.len() > 0 {
            (screens[0].rect.width, screens[0].rect.height)
        } else {
            DEFAULT_PEER_SIZE
        };
        self.peers.insert(device_id.clone(), width, height);
        self.focus.set_edge_device(self.client_direction, device_id.clone(), width, height);
    }

    /// Lets go of the peer `device_id`: the focus comes home if the peer
    /// had it, then the peer leaves the edges and the registry.
    pub fn detach(&mut self, device_id: &String)
        ensures
            old(self).wf() ==> final(self).wf(),
            final(self)@ == old(self)@.detach(device_id@),
    {
        proof {
            if self@.valid() {
                lemma_detach_keeps_valid(self@, device_id@);
            }
        }
        self.focus.remove_device(device_id.as_str());
        self.peers.remove(device_id);
    }

    /// The answer to a peer's `Hello`.
    pub fn welcome(&self) -> (message: Message)
        ensures
            message@ == self@.welcome(),
    {
        let (width, height) = self.focus.screen_size();
        let screens = vec![primary_screen_info(width, height)];
        assert(screens_view(screens@) =~= seq![primary_screen(width, height)]);
        Message::Welcome {
            device_id: DeviceId(self.name.clone()),
            device_name: self.name.clone(),
            screens,
        }
    }
}

/// Routing an event keeps the controller valid: the focus only ever goes
/// to a device that is bound to an edge, and such a device is attached.
pub proof fn lemma_route_keeps_valid(c: ControllerModel, message: MessageView)
    requires
        c.valid(),
    ensures
        c.route(message).0.valid(),
{
}

/// Attaching a peer keeps the controller valid.
pub proof fn lemma_attach_keeps_valid(
    c: ControllerModel,
    device_id: Seq<char>,
    screens: Seq<ScreenInfoView>,
)
    requires
        c.valid(),
    ensures
        c.attach(device_id, screens).valid(),
{
}

/// Detaching a peer keeps the controller valid: the focus is never left
/// on a peer that is gone.
pub proof fn lemma_detach_keeps_valid(c: ControllerModel, device_id: Seq<char>)
    requires
        c.valid(),
    ensures
        c.detach(device_id).valid(),
        !c.detach(device_id).peers.contains_key(device_id),
        !(c.detach(device_id).focus.state matches FocusStateView::Remote { device_id: focused, .. }
            && focused == device_id),
{
}

/// One thing that the handler of a connection to a peer has to do, in
/// the order in which it is due.
#[derive(Debug, Clone, PartialEq, Eq)]
pub enum ServerAction {
    /// Write this message to the peer as a frame.
    Send(Message),
    /// Hand this message of the peer to the controller's own handling.
    Dispatch(Message),
    /// Log this message and drop it: it came before the handshake was
    /// done and does not open it.
    Discard(Message),
    /// Tell the observers.
    Notify(ServerEvent),
    /// Open the outbound queue of the peer and serve it on this connection.
    Register { device_id: String },
    /// Close the outbound queue of the peer.
    Unregister { device_id: String },
}

/// A `ServerAction` as a mathematical value.
pub enum ServerActionView {
    Send(MessageView),
    Dispatch(MessageView),
    Discard(MessageView),
    Notify(ServerEventView),
    Register { device_id: Seq<char> },
    Unregister { device_id: Seq<char> },
}

impl View for ServerAction {
    type V = ServerActionView;

    open spec fn view(&self) -> ServerActionView {
        match *self {
            ServerAction::Send(m) => ServerActionView::Send(m@),
            ServerAction::Dispatch(m) => ServerActionView::Dispatch(m@),
            ServerAction::Discard(m) => ServerActionView::Discard(m@),
            ServerAction::Notify(e) => ServerActionView::Notify(e@),
            ServerAction::Register { device_id } => ServerActionView::Register {
                device_id: device_id@,
            },
            ServerAction::Unregister { device_id } => ServerActionView::Unregister {
                device_id: device_id@,
            },
        }
    }
}

/// A list of actions as mathematical values.
pub open spec fn server_actions_view(actions: Seq<ServerAction>) -> Seq<ServerActionView> {
    actions.map_values(|a: ServerAction| a@)
}

/// The controller's end of one connection, as a mathematical value.
pub struct PeerSessionModel {
    pub phase: Phase,
    /// The peer's id, once the handshake is done.
    pub device_id: Seq<char>,
    /// The peer's name, once the handshake is done.
    pub device_name: Seq<char>,
    /// Why the handler ends with an error, if it does.
    pub error: Option<SessionError>,
}

/// What a step of a connection to a peer gives: the connection and the
/// controller after it, and what is to be done.
pub struct PeerStep {
    pub session: PeerSessionModel,
    pub controller: ControllerModel,
    pub actions: Seq<ServerActionView>,
}

impl PeerSessionModel {
    /// A connection that was just accepted.
    pub open spec fn initial() -> PeerSessionModel {
        PeerSessionModel {
            phase: Phase::Greeting,
            device_id: Seq::empty(),
            device_name: Seq::empty(),
            error: None,
        }
    }

    /// The end of a connection whose handshake was done: the peer is let
    /// go of and the observers hear of it. The peer itself gets nothing.
    pub open spec fn terminate(self, c: ControllerModel, error: Option<SessionError>) -> PeerStep {
        PeerStep {
            session: PeerSessionModel { phase: Phase::Closed, error, ..self },
            controller: c.detach(self.device_id),
            actions: seq![
                ServerActionView::Unregister { device_id: self.device_id },
                ServerActionView::Notify(
                    ServerEventView::DeviceDisconnected { device_id: self.device_id },
                ),
                ServerActionView::Notify(ServerEventView::Log(disconnect_line(self.device_name))),
            ],
        }
    }

    /// The end of a connection whose handshake was never done: nothing
    /// was attached, so nothing is released and nobody is told.
    pub open spec fn abandon(self, c: ControllerModel, error: Option<SessionError>) -> PeerStep {
        PeerStep {
            session: PeerSessionModel { phase: Phase::Closed, error, ..self },
            controller: c,
            actions: Seq::empty(),
        }
    }

    /// A step that changes nothing but asks for `actions`.
    pub open spec fn stay(self, c: ControllerModel, actions: Seq<ServerActionView>) -> PeerStep {
        PeerStep { session: self, controller: c, actions }
    }

    /// The step for an event before the handshake is done. A `Hello`
    /// attaches the peer and is answered with a `Welcome`; any other frame
    /// is dropped.
    pub open spec fn greet(self, c: ControllerModel, event: ConnectionEventView) -> PeerStep {
        match event {
            ConnectionEventView::Frame(MessageView::Hello { device_id, device_name, screens }) => {
                PeerStep {
                    session: PeerSessionModel {
                        phase: Phase::Ready,
                        device_id,
                        device_name,
                        error: None,
                    },
                    controller: c.attach(device_id, screens),
                    actions: seq![
                        ServerActionView::Send(c.welcome()),
                        ServerActionView::Notify(
                            ServerEventView::DeviceConnected { device_id, device_name },
                        ),
                        ServerActionView::Register { device_id },
                    ],
                }
            },
            ConnectionEventView::Frame(message) => self.stay(
                c,
                seq![ServerActionView::Discard(message)],
            ),
            ConnectionEventView::Outbound(_) => self.stay(c, Seq::empty()),
            ConnectionEventView::Closed => self.abandon(c, None),
            ConnectionEventView::Cancelled => self.abandon(c, None),
            ConnectionEventView::ReceiveFailed => self.abandon(c, Some(SessionError::Transport)),
            ConnectionEventView::SendFailed => self.abandon(c, Some(SessionError::Transport)),
        }
    }

    /// The step for an event once the handshake is done.
    pub open spec fn serve(self, c: ControllerModel, event: ConnectionEventView) -> PeerStep {
        match event {
            ConnectionEventView::Frame(MessageView::Ping(seq)) => self.stay(
                c,
                seq![ServerActionView::Send(MessageView::Pong(seq))],
            ),
            ConnectionEventView::Frame(MessageView::Pong(_)) => self.stay(c, Seq::empty()),
            ConnectionEventView::Frame(MessageView::Bye { .. }) => self.terminate(c, None),
            ConnectionEventView::Frame(message) => self.stay(
                c,
                seq![ServerActionView::Dispatch(message)],
            ),
            ConnectionEventView::Outbound(message) => self.stay(
                c,
                seq![ServerActionView::Send(message)],
            ),
            ConnectionEventView::Closed => self.terminate(c, None),
            ConnectionEventView::Cancelled => self.terminate(c, None),
            ConnectionEventView::ReceiveFailed => self.terminate(c, None),
            ConnectionEventView::SendFailed => self.terminate(c, Some(SessionError::Transport)),
        }
    }

    /// The step for an event, whatever the phase. A closed connection
    /// takes no further step.
    pub open spec fn step(self, c: ControllerModel, event: ConnectionEventView) -> PeerStep {
        match self.phase {
            Phase::Greeting => self.greet(c, event),
            Phase::Ready => self.serve(c, event),
            Phase::Closed => self.stay(c, Seq::empty()),
        }
    }
}

/// The controller's end of one connection to a peer.
#[derive(Debug)]
pub struct PeerSession {
    phase: Phase,
    device_id: String,
    device_name: String,
    error: Option<SessionError>,
}

impl View for PeerSession {
    type V = PeerSessionModel;

    closed spec fn view(&self) -> PeerSessionModel {
        PeerSessionModel {
            phase: self.phase,
            device_id: self.device_id@,
            device_name: self.device_name@,
            error: self.error,
        }
    }
}

impl PeerSession {
    /// The session of a connection that was just accepted.
    pub fn new() -> (session: Self)
        ensures
            session@ == PeerSessionModel::initial(),
    {
        PeerSession {
            phase: Phase::Greeting,
            device_id: String::new(),
            device_name: String::new(),
            error: None,
        }
    }

    /// Where the connection is in its life.
    pub fn phase(&self) -> (phase: Phase)
        ensures
            phase == self@.phase,
    {
        self.phase
    }

    /// The peer's id, empty before the handshake is done.
    pub fn device_id(&self) -> (id: &String)
        ensures
            id@ == self@.device_id,
    {
        &self.device_id
    }

    /// How the handler of the connection ends: with an error where the
    /// transport failed in a way that the connection does not keep to
    /// itself.
    pub fn outcome(&self) -> (outcome: Result<(), SessionError>)
        ensures
            outcome == match self@.error {
                Some(e) => Err::<(), SessionError>(e),
                None => Ok::<(), SessionError>(()),
            },
    {
        match self.error {
            Some(e) => Err(e),
            None => Ok(()),
        }
    }

    /// Takes one event of the connection and says what is to be done for
    /// it. The handshake and the end of the connection change the
    /// controller; nothing else does.
    pub fn step(&mut self, controller: &mut Controller, event: ConnectionEvent) -> (actions: Vec<
        ServerAction,
    >)
        ensures
            old(controller).wf() ==> final(controller).wf(),
            (PeerStep {
                session: final(self)@,
                controller: final(controller)@,
                actions: server_actions_view(actions@),
            }) == old(self)@.step(old(controller)@, event@),
    {
        let mut actions: Vec<ServerAction> = Vec::new();
        match self.phase {
            Phase::Greeting => match event {
                ConnectionEvent::Frame(Message::Hello { device_id, device_name, screens }) => {
                    actions.push(ServerAction::Send(controller.welcome()));
                    controller.attach(&device_id.0, &screens);
                    actions.push(
                        ServerAction::Notify(
                            ServerEvent::DeviceConnected {
                                device_id: device_id.0.clone(),
                                device_name: device_name.clone(),
                            },
                        ),
                    );
                    actions.push(ServerAction::Register { device_id: device_id.0.clone() });
                    self.phase = Phase::Ready;
                    self.device_id = device_id.0;
                    self.device_name = device_name;
                    self.error = None;
                },
                ConnectionEvent::Frame(message) => {
                    actions.push(ServerAction::Discard(message));
                },
                ConnectionEvent::Outbound(_) => {},
                ConnectionEvent::Closed => {
                    self.phase = Phase::Closed;
                    self.error = None;
                },
                ConnectionEvent::Cancelled => {
                    self.phase = Phase::Closed;
                    self.error = None;
                },
                ConnectionEvent::ReceiveFailed => {
                    self.phase = Phase::Closed;
                    self.error = Some(SessionError::Transport);
                },
                ConnectionEvent::SendFailed => {
                    self.phase = Phase::Closed;
                    self.error = Some(SessionError::Transport);
                },
            },
            Phase::Ready => match event {
                ConnectionEvent::Frame(Message::Ping(seq)) => {
                    actions.push(ServerAction::Send(Message::Pong(seq)));
                },
                ConnectionEvent::Frame(Message::Pong(_)) => {},
                ConnectionEvent::Frame(Message::Bye { .. }) => {
                    actions = self.terminate(controller, None);
                },
                ConnectionEvent::Frame(message) => {
                    actions.push(ServerAction::Dispatch(message));
                },
                ConnectionEvent::Outbound(message) => {
                    actions.push(ServerAction::Send(message));
                },
                ConnectionEvent::Closed => {
                    actions = self.terminate(controller, None);
                },
                ConnectionEvent::Cancelled => {
                    actions = self.terminate(controller, None);
                },
                ConnectionEvent::ReceiveFailed => {
                    actions = self.terminate(controller, None);
                },
                ConnectionEvent::SendFailed => {
                    actions = self.terminate(controller, Some(SessionError::Transport));
                },
            },
            Phase::Closed => {},
        }
        assert(server_actions_view(actions@) =~= old(self)@.step(old(controller)@, event@).actions);
        actions
    }

    /// Ends a connection whose handshake was done.
    fn terminate(&mut self, controller: &mut Controller, error: Option<SessionError>) -> (actions:
        Vec<ServerAction>)
        ensures
            old(controller).wf() ==> final(controller).wf(),
            (PeerStep {
                session: final(self)@,
                controller: final(controller)@,
                actions: server_actions_view(actions@),
            }) == old(self)@.terminate(old(controller)@, error),
    {
        let mut actions: Vec<ServerAction> = Vec::new();
        controller.detach(&self.device_id);
        self.phase = Phase::Closed;
        self.error = error;
        actions.push(ServerAction::Unregister { device_id: self.device_id.clone() });
        actions.push(
            ServerAction::Notify(
                ServerEvent::DeviceDisconnected { device_id: self.device_id.clone() },
            ),
        );
        let line = String::from_str("Device ").concat(self.device_name.as_str()).concat(
            " disconnected",
        );
        actions.push(ServerAction::Notify(ServerEvent::Log(line)));
        assert(server_actions_view(actions@) =~= old(self)@.terminate(
            old(controller)@,
            error,
        ).actions);
        actions
    }
}

/// Whether `action` writes a message to the peer.
pub open spec fn is_send(action: ServerActionView) -> bool {
    action is Send
}

/// A connection goes through its phases in one direction: from the
/// handshake to the flow of messages to the end, or from the handshake
/// straight to the end. A closed connection stays closed, does nothing and
/// changes nothing.
pub proof fn lemma_phase_never_goes_back(
    s: PeerSessionModel,
    c: ControllerModel,
    event: ConnectionEventView,
)
    ensures
        phase_rank(s.step(c, event).session.phase) >= phase_rank(s.phase),
        s.phase == Phase::Closed ==> s.step(c, event) == s.stay(c, Seq::empty()),
{
}

/// A connection changes the controller at two moments only. When its
/// handshake is done it attaches its peer, and when it ends after that it
/// lets go of the same peer. So a peer is attached once and released once
/// in the life of its connection, and a connection that ends before its
/// handshake leaves no trace.
pub proof fn lemma_attach_and_release(
    s: PeerSessionModel,
    c: ControllerModel,
    event: ConnectionEventView,
)
    ensures
        ({
            let next = s.step(c, event);
            &&& (s.phase == Phase::Greeting && next.session.phase == Phase::Ready) ==> (event matches ConnectionEventView::Frame(
                MessageView::Hello { device_id, device_name, screens },
            ) && next.controller == c.attach(device_id, screens) && next.session.device_id
                == device_id)
            &&& (s.phase == Phase::Ready && next.session.phase == Phase::Closed)
                ==> next.controller == c.detach(s.device_id)
            &&& (s.phase == Phase::Greeting && next.session.phase == Phase::Closed)
                ==> next.controller == c && next.actions.len() == 0
            &&& next.session.phase == s.phase ==> next.controller == c && next.session == s
        }),
{
}

/// When a connection ends while its peer has the focus, for whatever
/// reason, the focus comes home, the peer is no longer attached, and
/// nothing is written to the peer: no `LeaveScreen` goes to a peer that is
/// gone. After that no event of the controller's input sends the peer
/// anything.
pub proof fn lemma_peer_loss(
    s: PeerSessionModel,
    c: ControllerModel,
    event: ConnectionEventView,
    input: MessageView,
)
    requires
        c.valid(),
        s.phase == Phase::Ready,
        s.step(c, event).session.phase == Phase::Closed,
    ensures
        ({
            let next = s.step(c, event);
            &&& next.controller.valid()
            &&& !next.controller.peers.contains_key(s.device_id)
            &&& (c.focus.state matches FocusStateView::Remote { device_id, .. } && device_id
                == s.device_id) ==> next.controller.focus.state is Local
            &&& forall|i: int| 0 <= i < next.actions.len() ==> !is_send(#[trigger] next.actions[i])
            &&& forall|i: int|
                0 <= i < next.controller.route(input).1.len() ==> !crate::focus_laws::sends_to(
                    #[trigger] next.controller.route(input).1[i],
                    s.device_id,
                )
        }),
{
    lemma_detach_keeps_valid(c, s.device_id);
    crate::focus_laws::lemma_removed_device_gets_nothing(c.focus, s.device_id, input);
}

/// Whatever the controller routes goes to an attached peer.
pub proof fn lemma_route_sends_to_attached(c: ControllerModel, input: MessageView)
    requires
        c.valid(),
    ensures
        forall|i: int|
            0 <= i < c.route(input).1.len() ==> (#[trigger] c.route(input).1[i]
                matches RouteActionView::Send { device_id, .. } ==> c.peers.contains_key(
                device_id,
            )),
{
}

/// The controller's listening side.
#[derive(Debug, Clone)]
pub struct Server {
    addr: String,
}

impl Server {
    /// A server that will listen on `addr`.
    pub fn new(addr: &str) -> (server: Self)
        ensures
            server.addr_view() == addr@,
    {
        Server { addr: addr.to_owned() }
    }

    /// The address to listen on, as a mathematical value.
    pub closed spec fn addr_view(&self) -> Seq<char> {
        self.addr@
    }

    /// The address to listen on.
    pub fn addr(&self) -> (addr: &String)
        ensures
            addr@ == self.addr_view(),
    {
        &self.addr
    }

    /// The line that the log gets once the server listens.
    pub fn listening_event(&self) -> (event: ServerEvent)
        ensures
            event@ == ServerEventView::Log("Listening on "@ + self.addr_view()),
    {
        ServerEvent::Log(String::from_str("Listening on ").concat(self.addr.as_str()))
    }
}

/// One thing that happens to the state that the connections share.
pub enum ControllerOp {
    /// An event of the controller's own input is routed.
    Route(MessageView),
    /// A peer is attached after its handshake.
    Attach { device_id: Seq<char>, screens: Seq<ScreenInfoView> },
    /// A peer is let go of.
    Detach { device_id: Seq<char> },
}

impl ControllerModel {
    /// The state after `op`.
    pub open spec fn apply(self, op: ControllerOp) -> ControllerModel {
        match op {
            ControllerOp::Route(message) => self.route(message).0,
            ControllerOp::Attach { device_id, screens } => self.attach(device_id, screens),
            ControllerOp::Detach { device_id } => self.detach(device_id),
        }
    }

    /// The state after `ops`, one after the other.
    pub open spec fn apply_all(self, ops: Seq<ControllerOp>) -> ControllerModel
        decreases ops.len(),
    {
        if ops.len() == 0 {
            self
        } else {
            self.apply_all(ops.drop_last()).apply(ops.last())
        }
    }
}

/// Whatever happens to a controller from its start on, in whatever order:
/// the device that has the focus is attached, every device that is bound to
/// an edge is attached, and the virtual pointer is on the screen of the
/// device that has the focus.
pub proof fn lemma_controller_always_valid(
    name: Seq<char>,
    screen_w: u32,
    screen_h: u32,
    client_direction: Edge,
    ops: Seq<ControllerOp>,
)
    ensures
        ControllerModel::initial(name, screen_w, screen_h, client_direction).apply_all(ops).valid(),
    decreases ops.len(),
{
    let start = ControllerModel::initial(name, screen_w, screen_h, client_direction);
    if ops.len() > 0 {
        lemma_controller_always_valid(name, screen_w, screen_h, client_direction, ops.drop_last());
        let before = start.apply_all(ops.drop_last());
        match ops.last() {
            ControllerOp::Route(message) => lemma_route_keeps_valid(before, message),
            ControllerOp::Attach { device_id, screens } => lemma_attach_keeps_valid(
                before,
                device_id,
                screens,
            ),
            ControllerOp::Detach { device_id } => lemma_detach_keeps_valid(before, device_id),
        }
    }
}

/// The steps of a connection change the shared state only by the
/// operations above: by none, by attaching its peer, or by letting go of it.
pub proof fn lemma_step_is_an_op(s: PeerSessionModel, c: ControllerModel, event: ConnectionEventView)
    ensures
        ({
            let next = s.step(c, event);
            ||| next.controller == c
            ||| exists|device_id: Seq<char>, screens: Seq<ScreenInfoView>|
                next.controller == c.apply(ControllerOp::Attach { device_id, screens })
            ||| next.controller == c.apply(ControllerOp::Detach { device_id: s.device_id })
        }),
{
    let next = s.step(c, event);
    if s.phase == Phase::Greeting {
        if let ConnectionEventView::Frame(MessageView::Hello { device_id, device_name, screens }) =
            event {
            assert(next.controller == c.apply(ControllerOp::Attach { device_id, screens }));
        }
    }
}

} // verus!
