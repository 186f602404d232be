//! The focus state machine of the controller: it decides, event by event,
//! whether input stays on the controller or goes to the peer behind an edge,
//! and keeps the virtual pointer on that peer's screen.

use vstd::prelude::*;
use crate::edges::{without_device, EdgeDevice, EdgeDeviceMap, EdgeDeviceView};
use crate::events::{LocalAction, ServerEvent, ServerEventView};
use crate::message::{Message, MessageView};
use crate::screen::{clamp, px, Edge, ScreenId, ScreenPosition, SUBPIXELS};

verus! {

/// How near to a side of the screen the pointer has to be to count as on
/// the edge: two pixels, in fixed point.
pub const EDGE_THRESHOLD: i64 = 131072;

/// Who has the focus.
#[derive(Debug, Clone, PartialEq, Eq)]
pub enum FocusState {
    /// The controller itself.
    Local,
    /// A peer. The virtual pointer is held in the peer's fixed-point pixel
    /// coordinates and stays on the peer's screen.
    Remote {
        device_id: String,
        virtual_x: i64,
        virtual_y: i64,
        remote_w: u32,
        remote_h: u32,
        entered_edge: Edge,
    },
}

/// A `FocusState` as a mathematical value.
pub enum FocusStateView {
    Local,
    Remote {
        device_id: Seq<char>,
        virtual_x: i64,
        virtual_y: i64,
        remote_w: u32,
        remote_h: u32,
        entered_edge: Edge,
    },
}

impl View for FocusState {
    type V = FocusStateView;

    open spec fn view(&self) -> FocusStateView {
        match *self {
            FocusState::Local => FocusStateView::Local,
            FocusState::Remote {
                device_id,
                virtual_x,
                virtual_y,
                remote_w,
                remote_h,
                entered_edge,
            } => FocusStateView::Remote {
                device_id: device_id@,
                virtual_x,
                virtual_y,
                remote_w,
                remote_h,
                entered_edge,
            },
        }
    }
}

/// One thing that the focus manager wants done for an event, in the order
/// in which it wants it done.
#[derive(Debug, Clone, PartialEq, Eq)]
pub enum RouteAction {
    /// Put `message` into the outbound queue of the peer `device_id`.
    Send { device_id: String, message: Message },
    /// Do this on the controller itself.
    Local(LocalAction),
    /// Tell the observers.
    Notify(ServerEvent),
}

/// A `RouteAction` as a mathematical value.
pub enum RouteActionView {
    Send { device_id: Seq<char>, message: MessageView },
    Local(LocalAction),
    Notify(ServerEventView),
}

impl View for RouteAction {
    type V = RouteActionView;

    open spec fn view(&self) -> RouteActionView {
        match *self {
            RouteAction::Send { device_id, message } => RouteActionView::Send {
                device_id: device_id@,
                message: message@,
            },
            RouteAction::Local(action) => RouteActionView::Local(action),
            RouteAction::Notify(event) => RouteActionView::Notify(event@),
        }
    }
}

/// A list of actions as mathematical values.
pub open spec fn actions_view(actions: Seq<RouteAction>) -> Seq<RouteActionView> {
    actions.map_values(|a: RouteAction| a@)
}

/// The edge across from `edge`.
pub open spec fn opposite(edge: Edge) -> Edge {
    match edge {
        Edge::Left => Edge::Right,
        Edge::Right => Edge::Left,
        Edge::Top => Edge::Bottom,
        Edge::Bottom => Edge::Top,
    }
}

/// The edge of a screen of `screen_w` by `screen_h` pixels that the
/// position `(x, y)` is on. Where two edges meet, left and right come before
/// top and bottom.
pub open spec fn edge_at(x: int, y: int, screen_w: int, screen_h: int) -> Option<Edge> {
    if x <= 131072 {
        Some(Edge::Left)
    } else if x >= px(screen_w) - 131072 {
        Some(Edge::Right)
    } else if y <= 131072 {
        Some(Edge::Top)
    } else if y >= px(screen_h) - 131072 {
        Some(Edge::Bottom)
    } else {
        None
    }
}

/// A coordinate `v` along a side of `local` pixels, carried over in
/// proportion to a side of `remote` pixels, rounded down to the fixed-point
/// unit and kept on that side. From a side without length every coordinate
/// beyond its start goes to the far end.
pub open spec fn project(v: int, remote: int, local: int) -> int {
    if local > 0 {
        clamp(v * remote / local, 0, px(remote))
    } else if v > 0 {
        px(remote)
    } else {
        0
    }
}

/// Where the virtual pointer starts on a peer's screen of `remote_w` by
/// `remote_h` pixels, when the pointer at `(x, y)` crosses `edge` of a
/// screen of `screen_w` by `screen_h` pixels: on the side of the peer's
/// screen that touches `edge`, as far along it as the pointer was.
pub open spec fn entry_point(
    edge: Edge,
    x: int,
    y: int,
    screen_w: int,
    screen_h: int,
    remote_w: int,
    remote_h: int,
) -> (int, int) {
    match edge {
        Edge::Right => (0, project(y, remote_h, screen_h)),
        Edge::Left => (px(remote_w), project(y, remote_h, screen_h)),
        Edge::Bottom => (project(x, remote_w, screen_w), 0),
        Edge::Top => (project(x, remote_w, screen_w), px(remote_h)),
    }
}

/// Whether the virtual pointer at `(vx, vy)` is on the edge of the peer's
/// screen through which the focus goes back: the one across from
/// `entered_edge`.
pub open spec fn on_exit_edge(
    vx: int,
    vy: int,
    remote_w: int,
    remote_h: int,
    entered_edge: Edge,
) -> bool {
    match opposite(entered_edge) {
        Edge::Left => vx <= 0,
        Edge::Right => vx >= px(remote_w),
        Edge::Top => vy <= 0,
        Edge::Bottom => vy >= px(remote_h),
    }
}

/// How far `v` is from the pixel `center`, kept within what an `i64` holds.
pub open spec fn offset_from(v: int, center: int) -> int {
    clamp(v - px(center), i64::MIN as int, i64::MAX as int)
}

/// The name that a focus change reports when the focus comes home.
pub open spec fn local_target() -> Seq<char> {
    "local"@
}

/// The focus manager as a mathematical value.
pub struct FocusModel {
    pub state: FocusStateView,
    pub screen_w: u32,
    pub screen_h: u32,
    pub edges: Map<Edge, EdgeDeviceView>,
}

impl FocusModel {
    /// What a new focus manager is: the focus is local and no edge is bound.
    pub open spec fn initial(screen_w: u32, screen_h: u32) -> FocusModel {
        FocusModel { state: FocusStateView::Local, screen_w, screen_h, edges: Map::empty() }
    }

    /// The virtual pointer is on the screen of the peer that has the
    /// focus.
    pub open spec fn valid(self) -> bool {
        match self.state {
            FocusStateView::Local => true,
            FocusStateView::Remote { virtual_x, virtual_y, remote_w, remote_h, .. } => {
                &&& 0 <= virtual_x <= px(remote_w as int)
                &&& 0 <= virtual_y <= px(remote_h as int)
            },
        }
    }

    /// The pixel in the middle of the screen, across.
    pub open spec fn center_x(self) -> int {
        self.screen_w as int / 2
    }

    /// The pixel in the middle of the screen, down.
    pub open spec fn center_y(self) -> int {
        self.screen_h as int / 2
    }

    /// The action that puts the pointer back in the middle of the screen.
    pub open spec fn recenter(self) -> RouteActionView {
        RouteActionView::Local(
            LocalAction::MoveMouse(self.center_x() as i32, self.center_y() as i32),
        )
    }

    /// The device `device` bound to `edge`, in place of the one that was.
    pub open spec fn set_edge_device(self, edge: Edge, device: EdgeDeviceView) -> FocusModel {
        FocusModel { edges: self.edges.insert(edge, device), ..self }
    }

    /// Without the device `device_id`: no edge is bound to it, and the
    /// focus is local if it was on that device.
    pub open spec fn remove_device(self, device_id: Seq<char>) -> FocusModel {
        FocusModel {
            state: match self.state {
                FocusStateView::Remote { device_id: focused, .. } if focused == device_id => {
                    FocusStateView::Local
                },
                _ => self.state,
            },
            edges: without_device(self.edges, device_id),
            ..self
        }
    }

    /// What a pointer position does while the focus is local: on an
    /// edge with a device behind it, the focus goes to that device.
    pub open spec fn handle_local_move(self, x: i64, y: i64) -> (FocusModel, Seq<RouteActionView>) {
        match edge_at(x as int, y as int, self.screen_w as int, self.screen_h as int) {
            Some(edge) if self.edges.contains_key(edge) => {
                let device = self.edges[edge];
                let (vx, vy) = entry_point(
                    edge,
                    x as int,
                    y as int,
                    self.screen_w as int,
                    self.screen_h as int,
                    device.width as int,
                    device.height as int,
                );
                let position = ScreenPosition { x: vx as i64, y: vy as i64 };
                (
                    FocusModel {
                        state: FocusStateView::Remote {
                            device_id: device.device_id,
                            virtual_x: position.x,
                            virtual_y: position.y,
                            remote_w: device.width,
                            remote_h: device.height,
                            entered_edge: edge,
                        },
                        ..self
                    },
                    seq![
                        self.recenter(),
                        RouteActionView::Send {
                            device_id: device.device_id,
                            message: MessageView::EnterScreen { screen_id: ScreenId(0), position },
                        },
                        RouteActionView::Send {
                            device_id: device.device_id,
                            message: MessageView::MouseMove { x: position.x, y: position.y },
                        },
                        RouteActionView::Notify(
                            ServerEventView::FocusChanged { target: device.device_id },
                        ),
                    ],
                )
            },
            _ => (self, Seq::empty()),
        }
    }

    /// What a pointer position does while a peer has the focus. The
    /// pointer is kept in the middle of the screen, so its distance from
    /// there is how far it moved. No distance means the position is the
    /// echo of the last recentering and is dropped. Else the virtual
    /// pointer moves by it: onto the exit edge, which gives the focus back,
    /// or elsewhere on the peer's screen, which sends the movement on.
    pub open spec fn handle_remote_move(self, x: i64, y: i64) -> (FocusModel, Seq<RouteActionView>)
        recommends
            self.state is Remote,
    {
        let device_id = self.state->device_id;
        let remote_w = self.state->remote_w;
        let remote_h = self.state->remote_h;
        let entered_edge = self.state->entered_edge;
        let dx = offset_from(x as int, self.center_x());
        let dy = offset_from(y as int, self.center_y());
        let vx = clamp(self.state->virtual_x + dx, 0, px(remote_w as int));
        let vy = clamp(self.state->virtual_y + dy, 0, px(remote_h as int));
        if dx == 0 && dy == 0 {
            (self, Seq::empty())
        } else if on_exit_edge(vx, vy, remote_w as int, remote_h as int, entered_edge) {
            (
                FocusModel { state: FocusStateView::Local, ..self },
                seq![
                    RouteActionView::Send {
                        device_id,
                        message: MessageView::LeaveScreen {
                            screen_id: ScreenId(0),
                            edge: opposite(entered_edge),
                            position: ScreenPosition { x: vx as i64, y: vy as i64 },
                        },
                    },
                    RouteActionView::Notify(
                        ServerEventView::FocusChanged { target: local_target() },
                    ),
                ],
            )
        } else {
            (
                FocusModel {
                    state: FocusStateView::Remote {
                        device_id,
                        virtual_x: vx as i64,
                        virtual_y: vy as i64,
                        remote_w,
                        remote_h,
                        entered_edge,
                    },
                    ..self
                },
                seq![
                    RouteActionView::Send {
                        device_id,
                        message: MessageView::MouseDelta { dx: dx as i64, dy: dy as i64 },
                    },
                    self.recenter(),
                ],
            )
        }
    }

    /// Whether a peer that has the focus gets `message` as it is.
    pub open spec fn forwarded(message: MessageView) -> bool {
        ||| message is KeyEvent
        ||| message is MouseButtonEvent
        ||| message is MouseScroll
        ||| message is ClipboardText
        ||| message is ClipboardImage
    }

    /// The state after the event `message`, and what is to be done for it.
    pub open spec fn handle(self, message: MessageView) -> (FocusModel, Seq<RouteActionView>) {
        match self.state {
            FocusStateView::Local => match message {
                MessageView::MouseMove { x, y } => self.handle_local_move(x, y),
                _ => (self, Seq::empty()),
            },
            FocusStateView::Remote { device_id, .. } => match message {
                MessageView::MouseMove { x, y } => self.handle_remote_move(x, y),
                _ => if Self::forwarded(message) {
                    (self, seq![RouteActionView::Send { device_id, message }])
                } else {
                    (self, Seq::empty())
                },
            },
        }
    }
}

/// The focus state machine. There is one per controller, and every event
/// goes through it in turn.
#[derive(Debug)]
pub struct FocusManager {
    state: FocusState,
    screen_w: u32,
    screen_h: u32,
    edge_devices: EdgeDeviceMap,
}

impl View for FocusManager {
    type V = FocusModel;

    closed spec fn view(&self) -> FocusModel {
        FocusModel {
            state: self.state@,
            screen_w: self.screen_w,
            screen_h: self.screen_h,
            edges: self.edge_devices@,
        }
    }
}

impl FocusManager {
    /// Whether the manager is in a state that its operations keep it in.
    pub open spec fn wf(&self) -> bool {
        self@.valid()
    }

    /// A manager for a controller whose screen has `screen_w` by `screen_h`
    /// pixels, with the focus on the controller and no edge bound.
    pub fn new(screen_w: u32, screen_h: u32) -> (manager: Self)
        ensures
            manager.wf(),
            manager@ == FocusModel::initial(screen_w, screen_h),
    {
        FocusManager {
            state: FocusState::Local,
            screen_w,
            screen_h,
            edge_devices: EdgeDeviceMap::new(),
        }
    }

    /// Who has the focus.
    pub fn state(&self) -> (state: &FocusState)
        ensures
            state@ == self@.state,
    {
        &self.state
    }

    /// The size of the controller's screen in pixels, width first.
    pub fn screen_size(&self) -> (size: (u32, u32))
        ensures
            size == (self@.screen_w, self@.screen_h),
    {
        (self.screen_w, self.screen_h)
    }

    /// The pixel in the middle of the controller's screen.
    pub fn center(&self) -> (center: (i32, i32))
        ensures
            center.0 == self@.center_x(),
            center.1 == self@.center_y(),
    {
        ((self.screen_w / 2) as i32, (self.screen_h / 2) as i32)
    }

    /// The device bound to `edge`, if there is one.
    pub fn edge_device(&self, edge: Edge) -> (device: Option<&EdgeDevice>)
        ensures
            match device {
                Some(d) => self@.edges.contains_key(edge) && self@.edges[edge] == d@,
                None => !self@.edges.contains_key(edge),
            },
    {
        self.edge_devices.get(edge)
    }

    /// Binds the device `device_id`, whose screen has `w` by `h` pixels, to
    /// `edge`. A device that was bound to `edge` before is no longer.
    pub fn set_edge_device(&mut self, edge: Edge, device_id: String, w: u32, h: u32)
        ensures
            old(self).wf() ==> final(self).wf(),
            final(self)@ == old(self)@.set_edge_device(
                edge,
                EdgeDeviceView { device_id: device_id@, width: w, height: h },
            ),
    {
        self.edge_devices.insert(edge, EdgeDevice { device_id, width: w, height: h });
    }

    /// Forgets the device `device_id`: no edge is bound to it any more, and
    /// the focus is local if it was on that device. Nothing is sent to the
    /// device, which is taken to be gone.
    pub fn remove_device(&mut self, device_id: &str)
        ensures
            old(self).wf() ==> final(self).wf(),
            final(self)@ == old(self)@.remove_device(device_id@),
    {
        let id = device_id.to_owned();
        self.edge_devices.remove_device(&id);
        let focused = match &self.state {
            FocusState::Remote { device_id: fid, .. } => *fid == id,
            FocusState::Local => false,
        };
        if focused {
            self.state = FocusState::Local;
        }
    }

    /// Takes one event from the controller's own input or clipboard and
    /// says what is to be done for it: nothing, messages for the peer that
    /// has the focus, a recentering of the pointer, a report to the
    /// observers. The actions come in the order in which they are due.
    pub fn handle_input_message(&mut self, msg: Message) -> (actions: Vec<RouteAction>)
        ensures
            old(self).wf() ==> final(self).wf(),
            (final(self)@, actions_view(actions@)) == old(self)@.handle(msg@),
    {
        let focused: Option<String> = match &self.state {
            FocusState::Local => None,
            FocusState::Remote { device_id, .. } => Some(device_id.clone()),
        };
        let mut actions: Vec<RouteAction> = Vec::new();
        match focused {
            None => {
                if let Message::MouseMove { x, y } = msg {
                    actions = self.enter_on_edge(x, y);
                }
            },
            Some(device_id) => {
                match msg {
                    Message::MouseMove { x, y } => {
                        actions = self.move_virtual(x, y);
                    },
                    Message::KeyEvent { .. }
                    | Message::MouseButtonEvent { .. }
                    | Message::MouseScroll { .. }
                    | Message::ClipboardText { .. }
                    | Message::ClipboardImage { .. } => {
                        actions.push(RouteAction::Send { device_id, message: msg });
                    },
                    _ => {},
                }
            },
        }
        assert(actions_view(actions@) =~= old(self)@.handle(msg@).1);
        actions
    }

    /// The step for a pointer position while the focus is local.
    fn enter_on_edge(&mut self, x: i64, y: i64) -> (actions: Vec<RouteAction>)
        requires
            old(self)@.state is Local,
        ensures
            old(self).wf() ==> final(self).wf(),
            (final(self)@, actions_view(actions@)) == old(self)@.handle_local_move(x, y),
    {
        let mut actions: Vec<RouteAction> = Vec::new();
        let bound: Option<(Edge, String, u32, u32)> = match self.check_edge(x, y) {
            Some(edge) => match self.edge_devices.get(edge) {
                Some(device) => Some((edge, device.device_id.clone(), device.width, device.height)),
                None => None,
            },
            None => None,
        };
        if let Some((edge, device_id, rw, rh)) = bound {
            let (vx, vy) = Self::entry_position(&edge, x, y, self.screen_w, self.screen_h, rw, rh);
            let (cx, cy) = self.center();
            self.state = FocusState::Remote {
                device_id: device_id.clone(),
                virtual_x: vx,
                virtual_y: vy,
                remote_w: rw,
                remote_h: rh,
                entered_edge: edge,
            };
            actions.push(RouteAction::Local(LocalAction::MoveMouse(cx, cy)));
            actions.push(
                RouteAction::Send {
                    device_id: device_id.clone(),
                    message: Message::EnterScreen {
                        screen_id: ScreenId(0),
                        position: ScreenPosition { x: vx, y: vy },
                    },
                },
            );
            actions.push(
                RouteAction::Send {
                    device_id: device_id.clone(),
                    message: Message::MouseMove { x: vx, y: vy },
                },
            );
            actions.push(RouteAction::Notify(ServerEvent::FocusChanged { target: device_id }));
        }
        assert(actions_view(actions@) =~= old(self)@.handle_local_move(x, y).1);
        actions
    }

    /// The step for a pointer position while a peer has the focus.
    fn move_virtual(&mut self, x: i64, y: i64) -> (actions: Vec<RouteAction>)
        requires
            old(self)@.state is Remote,
        ensures
            old(self).wf() ==> final(self).wf(),
            (final(self)@, actions_view(actions@)) == old(self)@.handle_remote_move(x, y),
    {
        let mut actions: Vec<RouteAction> = Vec::new();
        let (cx, cy) = self.center();
        let dx = offset(x, cx);
        let dy = offset(y, cy);
        if dx == 0 && dy == 0 {
            assert(actions_view(actions@) =~= old(self)@.handle_remote_move(x, y).1);
            return actions;
        }
        let step: Option<(String, i64, i64, u32, u32, Edge)> = match &self.state {
            FocusState::Remote {
                device_id,
                virtual_x,
                virtual_y,
                remote_w,
                remote_h,
                entered_edge,
            } => Some(
                (
                    device_id.clone(),
                    advance(*virtual_x, dx, *remote_w),
                    advance(*virtual_y, dy, *remote_h),
                    *remote_w,
                    *remote_h,
                    *entered_edge,
                ),
            ),
            FocusState::Local => None,
        };
        if let Some((device_id, vx, vy, remote_w, remote_h, entered_edge)) = step {
            if Self::check_virtual_edge(vx, vy, remote_w, remote_h, &entered_edge) {
                actions.push(
                    RouteAction::Send {
                        device_id,
                        message: Message::LeaveScreen {
                            screen_id: ScreenId(0),
                            edge: Self::opposite_edge(&entered_edge),
                            position: ScreenPosition { x: vx, y: vy },
                        },
                    },
                );
                self.state = FocusState::Local;
                actions.push(
                    RouteAction::Notify(ServerEvent::FocusChanged { target: "local".to_owned() }),
                );
            } else {
                self.state = FocusState::Remote {
                    device_id: device_id.clone(),
                    virtual_x: vx,
                    virtual_y: vy,
                    remote_w,
                    remote_h,
                    entered_edge,
                };
                actions.push(
                    RouteAction::Send { device_id, message: Message::MouseDelta { dx, dy } },
                );
                actions.push(RouteAction::Local(LocalAction::MoveMouse(cx, cy)));
            }
        }
        assert(actions_view(actions@) =~= old(self)@.handle_remote_move(x, y).1);
        actions
    }

    /// The edge across from `edge`.
    pub fn opposite_edge(edge: &Edge) -> (across: Edge)
        ensures
            across == opposite(*edge),
    {
        match edge {
            Edge::Left => Edge::Right,
            Edge::Right => Edge::Left,
            Edge::Top => Edge::Bottom,
            Edge::Bottom => Edge::Top,
        }
    }

    /// The edge of the controller's screen that the position `(x, y)` is
    /// on, if it is on one.
    pub fn check_edge(&self, x: i64, y: i64) -> (edge: Option<Edge>)
        ensures
            edge == edge_at(x as int, y as int, self@.screen_w as int, self@.screen_h as int),
    {
        if x <= EDGE_THRESHOLD {
            return Some(Edge::Left);
        }
        if x >= (self.screen_w as i64) * SUBPIXELS - EDGE_THRESHOLD {
            return Some(Edge::Right);
        }
        if y <= EDGE_THRESHOLD {
            return Some(Edge::Top);
        }
        if y >= (self.screen_h as i64) * SUBPIXELS - EDGE_THRESHOLD {
            return Some(Edge::Bottom);
        }
        None
    }

    /// Where the virtual pointer starts on the peer's screen when the
    /// pointer at `(x, y)` crosses `edge`.
    pub fn entry_position(
        edge: &Edge,
        x: i64,
        y: i64,
        sw: u32,
        sh: u32,
        rw: u32,
        rh: u32,
    ) -> (at: (i64, i64))
        ensures
            (at.0 as int, at.1 as int) == entry_point(
                *edge,
                x as int,
                y as int,
                sw as int,
                sh as int,
                rw as int,
                rh as int,
            ),
    {
        match edge {
            Edge::Right => (0, project_onto(y, rh, sh)),
            Edge::Left => ((rw as i64) * SUBPIXELS, project_onto(y, rh, sh)),
            Edge::Bottom => (project_onto(x, rw, sw), 0),
            Edge::Top => (project_onto(x, rw, sw), (rh as i64) * SUBPIXELS),
        }
    }

    /// Whether the virtual pointer at `(vx, vy)` is on the edge through
    /// which the focus goes back to the controller.
    pub fn check_virtual_edge(vx: i64, vy: i64, rw: u32, rh: u32, entered_edge: &Edge) -> (out: bool)
        ensures
            out == on_exit_edge(vx as int, vy as int, rw as int, rh as int, *entered_edge),
    {
        let exit_edge = Self::opposite_edge(entered_edge);
        match exit_edge {
            Edge::Left => vx <= 0,
            Edge::Right => vx >= (rw as i64) * SUBPIXELS,
            Edge::Top => vy <= 0,
            Edge::Bottom => vy >= (rh as i64) * SUBPIXELS,
        }
    }
}

/// `v`, a coordinate along a side of `local` pixels, carried over to a side
/// of `remote` pixels.
fn project_onto(v: i64, remote: u32, local: u32) -> (out: i64)
    ensures
        out == project(v as int, remote as int, local as int),
{
    let limit: i64 = (remote as i64) * SUBPIXELS;
    if local == 0 {
        if v > 0 {
            limit
        } else {
            0
        }
    } else if v <= 0 {
        assert(v * remote / (local as int) <= 0) by (nonlinear_arith)
            requires
                v <= 0,
                remote >= 0,
                local > 0,
        ;
        0
    } else {
        assert(0 <= v * remote < 0x8000_0000_0000_0000 * 0x1_0000_0000) by (nonlinear_arith)
            requires
                0 < v < 0x8000_0000_0000_0000,
                0 <= remote < 0x1_0000_0000,
        ;
        let scaled: i128 = (v as i128) * (remote as i128) / (local as i128);
        assert(scaled >= 0) by (nonlinear_arith)
            requires
                scaled == (v * remote) / (local as int),
                v * remote >= 0,
                local > 0,
        ;
        if scaled > limit as i128 {
            limit
        } else {
            scaled as i64
        }
    }
}

/// How far `v` is from the pixel `center`.
fn offset(v: i64, center: i32) -> (out: i64)
    requires
        center >= 0,
    ensures
        out == offset_from(v as int, center as int),
{
    let c: i64 = (center as i64) * SUBPIXELS;
    if v < i64::MIN + c {
        i64::MIN
    } else {
        v - c
    }
}

/// `v + d`, kept between 0 and `limit` pixels.
fn advance(v: i64, d: i64, limit: u32) -> (out: i64)
    ensures
        out == clamp(v + d, 0, px(limit as int)),
{
    let hi: i128 = (limit as i128) * (SUBPIXELS as i128);
    let sum: i128 = (v as i128) + (d as i128);
    if sum < 0 {
        0
    } else if sum > hi {
        hi as i64
    } else {
        sum as i64
    }
}

} // verus!
