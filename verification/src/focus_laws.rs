//! What holds of the focus state machine whatever the events are.

use vstd::prelude::*;
use crate::edges::EdgeDeviceView;
use crate::focus::{
    edge_at, local_target, offset_from, on_exit_edge, opposite, FocusModel, FocusStateView,
    RouteActionView,
};
use crate::message::MessageView;
use crate::screen::{clamp, px, Edge, ScreenId, ScreenPosition};

verus! {

/// Whether `action` puts a message into the queue of the device `device_id`.
pub open spec fn sends_to(action: RouteActionView, device_id: Seq<char>) -> bool {
    action matches RouteActionView::Send { device_id: to, .. } && to == device_id
}

/// No event takes the virtual pointer off the screen of the peer that has
/// the focus, and none changes the controller's screen.
pub proof fn lemma_handle_keeps_valid(m: FocusModel, message: MessageView)
    requires
        m.valid(),
    ensures
        m.handle(message).0.valid(),
        m.handle(message).0.screen_w == m.screen_w,
        m.handle(message).0.screen_h == m.screen_h,
        m.handle(message).0.edges == m.edges,
{
}

/// Binding and removing devices keep the state valid.
pub proof fn lemma_devices_keep_valid(
    m: FocusModel,
    edge: Edge,
    device: EdgeDeviceView,
    device_id: Seq<char>,
)
    requires
        m.valid(),
    ensures
        m.set_edge_device(edge, device).valid(),
        m.remove_device(device_id).valid(),
{
}

/// While a peer has the focus, a pointer position in the middle of the
/// screen does nothing: no message, no local action, no change of state.
pub proof fn lemma_dead_band(m: FocusModel)
    requires
        m.valid(),
        m.state is Remote,
    ensures
        m.handle(
            MessageView::MouseMove {
                x: px(m.center_x()) as i64,
                y: px(m.center_y()) as i64,
            },
        ) == (m, Seq::<RouteActionView>::empty()),
{
}

/// While a peer has the focus, a pointer position away from the middle
/// that leaves the virtual pointer off the exit edge sends exactly that
/// distance to the peer and recenters the pointer; the position in the
/// middle that the recentering causes then does nothing. So the two events
/// together send one delta.
pub proof fn lemma_move_then_echo(m: FocusModel, x: i64, y: i64)
    requires
        m.valid(),
        m.state is Remote,
        offset_from(x as int, m.center_x()) != 0 || offset_from(y as int, m.center_y()) != 0,
        m.handle(MessageView::MouseMove { x, y }).0.state is Remote,
    ensures
        ({
            let dx = offset_from(x as int, m.center_x());
            let dy = offset_from(y as int, m.center_y());
            let (moved, actions) = m.handle(MessageView::MouseMove { x, y });
            let echo = MessageView::MouseMove {
                x: px(m.center_x()) as i64,
                y: px(m.center_y()) as i64,
            };
            &&& actions == seq![
                RouteActionView::Send {
                    device_id: m.state->device_id,
                    message: MessageView::MouseDelta { dx: dx as i64, dy: dy as i64 },
                },
                m.recenter(),
            ]
            &&& moved.state->virtual_x == clamp(
                m.state->virtual_x + dx,
                0,
                px(m.state->remote_w as int),
            )
            &&& moved.state->virtual_y == clamp(
                m.state->virtual_y + dy,
                0,
                px(m.state->remote_h as int),
            )
            &&& moved.handle(echo) == (moved, Seq::<RouteActionView>::empty())
        }),
{
}

/// While a peer has the focus, a pointer position that takes the virtual
/// pointer onto the exit edge sends the peer one `LeaveScreen`, with the
/// exit edge and the place on it, and brings the focus home. No delta goes
/// out and the pointer is not recentered.
pub proof fn lemma_reverse_exit(m: FocusModel, x: i64, y: i64)
    requires
        m.valid(),
        m.state is Remote,
        offset_from(x as int, m.center_x()) != 0 || offset_from(y as int, m.center_y()) != 0,
        on_exit_edge(
            clamp(
                m.state->virtual_x + offset_from(x as int, m.center_x()),
                0,
                px(m.state->remote_w as int),
            ),
            clamp(
                m.state->virtual_y + offset_from(y as int, m.center_y()),
                0,
                px(m.state->remote_h as int),
            ),
            m.state->remote_w as int,
            m.state->remote_h as int,
            m.state->entered_edge,
        ),
    ensures
        ({
            let vx = clamp(
                m.state->virtual_x + offset_from(x as int, m.center_x()),
                0,
                px(m.state->remote_w as int),
            );
            let vy = clamp(
                m.state->virtual_y + offset_from(y as int, m.center_y()),
                0,
                px(m.state->remote_h as int),
            );
            let (after, actions) = m.handle(MessageView::MouseMove { x, y });
            &&& after.state is Local
            &&& actions == seq![
                RouteActionView::Send {
                    device_id: m.state->device_id,
                    message: MessageView::LeaveScreen {
                        screen_id: ScreenId(0),
                        edge: opposite(m.state->entered_edge),
                        position: ScreenPosition { x: vx as i64, y: vy as i64 },
                    },
                },
                RouteActionView::Notify(
                    crate::events::ServerEventView::FocusChanged { target: local_target() },
                ),
            ]
        }),
{
}

/// While the focus is local, only a pointer position on an edge that has
/// a device behind it does anything. Every other event leaves the state as
/// it is and asks for nothing.
pub proof fn lemma_local_quiet(m: FocusModel, message: MessageView)
    requires
        m.state is Local,
        message matches MessageView::MouseMove { x, y } ==> match edge_at(
            x as int,
            y as int,
            m.screen_w as int,
            m.screen_h as int,
        ) {
            Some(edge) => !m.edges.contains_key(edge),
            None => true,
        },
    ensures
        m.handle(message) == (m, Seq::<RouteActionView>::empty()),
{
}

/// An edge holds the device that was bound to it last: a second binding
/// takes the place of the first, and no other edge changes.
pub proof fn lemma_edge_holds_last_device(
    m: FocusModel,
    edge: Edge,
    first: EdgeDeviceView,
    second: EdgeDeviceView,
)
    ensures
        m.set_edge_device(edge, first).set_edge_device(edge, second) == m.set_edge_device(
            edge,
            second,
        ),
        m.set_edge_device(edge, second).edges[edge] == second,
        forall|other: Edge|
            other != edge ==> (m.set_edge_device(edge, second).edges.contains_key(other)
                <==> m.edges.contains_key(other)),
        forall|other: Edge|
            other != edge && m.edges.contains_key(other) ==> m.set_edge_device(
                edge,
                second,
            ).edges[other] == m.edges[other],
{
    assert(m.edges.insert(edge, first).insert(edge, second) =~= m.edges.insert(edge, second));
}

/// Removing the device that has the focus brings the focus home, and
/// removing any device leaves no edge bound to it.
pub proof fn lemma_remove_device(m: FocusModel, device_id: Seq<char>)
    ensures
        (m.state matches FocusStateView::Remote { device_id: focused, .. } && focused == device_id)
            ==> m.remove_device(device_id).state is Local,
        !(m.state matches FocusStateView::Remote { device_id: focused, .. } && focused
            == device_id) ==> m.remove_device(device_id).state == m.state,
        forall|edge: Edge| #[trigger]
            m.remove_device(device_id).edges.contains_key(edge) ==> m.remove_device(
                device_id,
            ).edges[edge].device_id != device_id,
{
}

/// Once a device is removed, no event sends it anything, until it is
/// bound to an edge again.
pub proof fn lemma_removed_device_gets_nothing(
    m: FocusModel,
    device_id: Seq<char>,
    message: MessageView,
)
    ensures
        forall|i: int|
            0 <= i < m.remove_device(device_id).handle(message).1.len() ==> !sends_to(
                #[trigger] m.remove_device(device_id).handle(message).1[i],
                device_id,
            ),
        m.remove_device(device_id).handle(message).0.remove_device(device_id) == m.remove_device(
            device_id,
        ).handle(message).0,
{
    let r = m.remove_device(device_id);
    let after = r.handle(message).0;
    assert(after.edges == r.edges);
    assert(crate::edges::without_device(r.edges, device_id) =~= r.edges);
}

/// The state after the events `messages`, one after the other.
pub open spec fn after_all(m: FocusModel, messages: Seq<MessageView>) -> FocusModel
    decreases messages.len(),
{
    if messages.len() == 0 {
        m
    } else {
        after_all(m, messages.drop_last()).handle(messages.last()).0
    }
}

/// Whatever events come, in whatever order, the virtual pointer is on the
/// screen of the peer that has the focus.
pub proof fn lemma_always_valid(m: FocusModel, messages: Seq<MessageView>)
    requires
        m.valid(),
    ensures
        after_all(m, messages).valid(),
        after_all(m, messages).edges == m.edges,
        after_all(m, messages).screen_w == m.screen_w,
        after_all(m, messages).screen_h == m.screen_h,
    decreases messages.len(),
{
    if messages.len() > 0 {
        lemma_always_valid(m, messages.drop_last());
        lemma_handle_keeps_valid(after_all(m, messages.drop_last()), messages.last());
    }
}

/// The focus only ever goes to a device that is bound to an edge, and it
/// stays on a device until it comes home: an event leaves the focus where
/// it was, brings it home, or takes it from home to a bound device.
pub proof fn lemma_focus_moves(m: FocusModel, message: MessageView)
    ensures
        ({
            let after = m.handle(message).0;
            match (m.state, after.state) {
                (FocusStateView::Local, FocusStateView::Remote { device_id, entered_edge, .. }) => {
                    &&& m.edges.contains_key(entered_edge)
                    &&& m.edges[entered_edge].device_id == device_id
                    &&& message is MouseMove
                },
                (
                    FocusStateView::Remote { device_id: before, entered_edge: e1, .. },
                    FocusStateView::Remote { device_id: now, entered_edge: e2, .. },
                ) => before == now && e1 == e2,
                (FocusStateView::Remote { .. }, FocusStateView::Local) => message is MouseMove,
                (FocusStateView::Local, FocusStateView::Local) => true,
            }
        }),
{
}

/// Every message that an event sends goes to the device that has the
/// focus, or to the device that gets it by this event.
pub proof fn lemma_sends_follow_focus(m: FocusModel, message: MessageView)
    ensures
        forall|i: int|
            0 <= i < m.handle(message).1.len() ==> (#[trigger] m.handle(message).1[i]
                matches RouteActionView::Send { device_id, .. } ==> {
                ||| (m.state matches FocusStateView::Remote { device_id: focused, .. } && focused
                    == device_id)
                ||| (m.state is Local && (m.handle(message).0.state
                    matches FocusStateView::Remote { device_id: focused, .. } && focused
                    == device_id))
            }),
{
}

} // verus!
