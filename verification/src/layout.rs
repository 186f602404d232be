//! A layout of screens that are linked edge to edge, and where the pointer
//! arrives when it crosses from one screen to the next.

use vstd::prelude::*;
use crate::screen::{clamp, px, Edge, ScreenId, ScreenInfo, ScreenInfoView, ScreenPosition, ScreenRect, SUBPIXELS};

verus! {

/// The screens that lie behind the four edges of a screen.
#[derive(Debug, Clone, Copy, PartialEq, Eq, Structural)]
pub struct Neighbors {
    pub top: Option<ScreenId>,
    pub bottom: Option<ScreenId>,
    pub left: Option<ScreenId>,
    pub right: Option<ScreenId>,
}

impl Neighbors {
    /// No screen behind any edge.
    pub open spec fn none() -> Neighbors {
        Neighbors { top: None, bottom: None, left: None, right: None }
    }

    /// The screen behind `edge`.
    pub open spec fn behind(self, edge: Edge) -> Option<ScreenId> {
        match edge {
            Edge::Top => self.top,
            Edge::Bottom => self.bottom,
            Edge::Left => self.left,
            Edge::Right => self.right,
        }
    }

    /// The same neighbors, but with `to` behind `edge`.
    pub open spec fn with(self, edge: Edge, to: ScreenId) -> Neighbors {
        match edge {
            Edge::Top => Neighbors { top: Some(to), ..self },
            Edge::Bottom => Neighbors { bottom: Some(to), ..self },
            Edge::Left => Neighbors { left: Some(to), ..self },
            Edge::Right => Neighbors { right: Some(to), ..self },
        }
    }
}

/// A screen of the layout with its neighbors.
#[derive(Debug)]
struct ScreenEntry {
    info: ScreenInfo,
    neighbors: Neighbors,
}

/// A screen of the layout with its neighbors, as a mathematical value.
pub struct ScreenEntryView {
    pub info: ScreenInfoView,
    pub neighbors: Neighbors,
}

impl View for ScreenEntry {
    type V = ScreenEntryView;

    closed spec fn view(&self) -> ScreenEntryView {
        ScreenEntryView { info: self.info@, neighbors: self.neighbors }
    }
}

/// The place of the first screen with the id `id` among `entries`, looking
/// from `start` on.
pub open spec fn position_from(entries: Seq<ScreenEntryView>, id: ScreenId, start: int) -> Option<int>
    decreases entries.len() - start,
{
    if start < 0 || start >= entries.len() {
        None
    } else if entries[start].info.id == id {
        Some(start)
    } else {
        position_from(entries, id, start + 1)
    }
}

/// The place of the first screen with the id `id` among `entries`.
pub open spec fn position_of(entries: Seq<ScreenEntryView>, id: ScreenId) -> Option<int> {
    position_from(entries, id, 0)
}

/// The layout with one more screen, which has no neighbors yet.
pub open spec fn with_screen(entries: Seq<ScreenEntryView>, info: ScreenInfoView) -> Seq<ScreenEntryView> {
    entries.push(ScreenEntryView { info, neighbors: Neighbors::none() })
}

/// The layout in which the screen `to` lies behind the edge `edge` of the
/// screen `from`. A layout without a screen `from` stays as it is.
pub open spec fn linked(
    entries: Seq<ScreenEntryView>,
    from: ScreenId,
    edge: Edge,
    to: ScreenId,
) -> Seq<ScreenEntryView> {
    match position_of(entries, from) {
        Some(i) => entries.update(
            i,
            ScreenEntryView { info: entries[i].info, neighbors: entries[i].neighbors.with(edge, to) },
        ),
        None => entries,
    }
}

/// The edge of the screen at `rect` that the position `pos` is on or
/// beyond. Left and right come before top and bottom.
pub open spec fn crossed_edge(rect: ScreenRect, pos: ScreenPosition) -> Option<Edge> {
    if pos.x <= px(rect.x as int) {
        Some(Edge::Left)
    } else if pos.x >= px(rect.x + rect.width) {
        Some(Edge::Right)
    } else if pos.y <= px(rect.y as int) {
        Some(Edge::Top)
    } else if pos.y >= px(rect.y + rect.height) {
        Some(Edge::Bottom)
    } else {
        None
    }
}

/// Where the pointer arrives on the screen at `target` when it leaves
/// the neighboring screen at `pos` across `edge`: on the side of `target`
/// that faces the edge, one pixel inside where that side is the far one, and
/// as far along it as `pos` was, kept within the side.
pub open spec fn mapped_position(edge: Edge, pos: ScreenPosition, target: ScreenRect) -> (int, int) {
    let left = px(target.x as int);
    let right = px(target.x + target.width);
    let top = px(target.y as int);
    let bottom = px(target.y + target.height);
    match edge {
        Edge::Left => (right - px(1), clamp(pos.y as int, top, bottom)),
        Edge::Right => (left, clamp(pos.y as int, top, bottom)),
        Edge::Top => (clamp(pos.x as int, left, right), bottom - px(1)),
        Edge::Bottom => (clamp(pos.x as int, left, right), top),
    }
}

/// Where the pointer goes when it is at `pos` on the screen `screen_id`:
/// to the neighbor behind the edge that `pos` is on, if the layout has
/// the screen, `pos` is on an edge, a neighbor is linked there and the
/// layout has that neighbor too.
pub open spec fn crossing(
    entries: Seq<ScreenEntryView>,
    screen_id: ScreenId,
    pos: ScreenPosition,
) -> Option<(ScreenId, Edge, ScreenPosition)> {
    match position_of(entries, screen_id) {
        None => None,
        Some(i) => match crossed_edge(entries[i].info.rect, pos) {
            None => None,
            Some(edge) => match entries[i].neighbors.behind(edge) {
                None => None,
                Some(target_id) => match position_of(entries, target_id) {
                    None => None,
                    Some(j) => {
                        let (x, y) = mapped_position(edge, pos, entries[j].info.rect);
                        Some((target_id, edge, ScreenPosition { x: x as i64, y: y as i64 }))
                    },
                },
            },
        },
    }
}

/// The screens of several devices and how they lie next to each other.
#[derive(Debug)]
pub struct ScreenLayout {
    screens: Vec<ScreenEntry>,
}

impl View for ScreenLayout {
    type V = Seq<ScreenEntryView>;

    closed spec fn view(&self) -> Seq<ScreenEntryView> {
        self.screens@.map_values(|e: ScreenEntry| e@)
    }
}

impl ScreenLayout {
    /// A layout without screens.
    pub fn new() -> (layout: Self)
        ensures
            layout@ == Seq::<ScreenEntryView>::empty(),
    {
        let layout = ScreenLayout { screens: Vec::new() };
        assert(layout@ =~= Seq::<ScreenEntryView>::empty());
        layout
    }

    /// Adds a screen, which has no neighbors yet.
    pub fn add_screen(&mut self, info: ScreenInfo)
        ensures
            final(self)@ == with_screen(old(self)@, info@),
    {
        self.screens.push(ScreenEntry { info, neighbors: Neighbors { top: None, bottom: None, left: None, right: None } });
        assert(self@ =~= with_screen(old(self)@, info@));
    }

    /// The place of the first screen with the id `id`.
    fn find(&self, id: ScreenId) -> (at: Option<usize>)
        ensures
            match at {
                Some(i) => position_of(self@, id) == Some(i as int) && i < self.screens@.len(),
                None => position_of(self@, id) is None,
            },
    {
        let mut i: usize = 0;
        while i < self.screens.len()
            invariant
                i <= self.screens.len(),
                self@.len() == self.screens@.len(),
                position_of(self@, id) == position_from(self@, id, i as int),
            decreases self.screens.len() - i,
        {
            if self.screens[i].info.id == id {
                return Some(i);
            }
            i += 1;
        }
        None
    }

    /// Puts the screen `to` behind the edge `edge` of the screen `from`.
    /// Nothing changes if the layout has no screen `from`.
    pub fn link(&mut self, from: ScreenId, edge: Edge, to: ScreenId)
        ensures
            final(self)@ == linked(old(self)@, from, edge, to),
    {
        if let Some(i) = self.find(from) {
            let mut entry = self.screens.remove(i);
            match edge {
                Edge::Top => {
                    entry.neighbors.top = Some(to);
                },
                Edge::Bottom => {
                    entry.neighbors.bottom = Some(to);
                },
                Edge::Left => {
                    entry.neighbors.left = Some(to);
                },
                Edge::Right => {
                    entry.neighbors.right = Some(to);
                },
            }
            self.screens.insert(i, entry);
            assert(self@ =~= linked(old(self)@, from, edge, to));
        }
    }

    /// Where the pointer goes when it is at `pos` on the screen
    /// `screen_id`: the neighbor it crosses to, the edge it crosses, and
    /// where it arrives.
    pub fn check_edge_crossing(&self, screen_id: ScreenId, pos: ScreenPosition) -> (to: Option<
        (ScreenId, Edge, ScreenPosition),
    >)
        ensures
            to == crossing(self@, screen_id, pos),
    {
        let i = match self.find(screen_id) {
            Some(i) => i,
            None => {
                return None;
            },
        };
        let entry = &self.screens[i];
        let rect = entry.info.rect;
        let right: i64 = (rect.x as i64 + rect.width as i64) * SUBPIXELS;
        let bottom: i64 = (rect.y as i64 + rect.height as i64) * SUBPIXELS;
        let crossed: Option<(Edge, Option<ScreenId>)> = if pos.x <= (rect.x as i64) * SUBPIXELS {
            Some((Edge::Left, entry.neighbors.left))
        } else if pos.x >= right {
            Some((Edge::Right, entry.neighbors.right))
        } else if pos.y <= (rect.y as i64) * SUBPIXELS {
            Some((Edge::Top, entry.neighbors.top))
        } else if pos.y >= bottom {
            Some((Edge::Bottom, entry.neighbors.bottom))
        } else {
            None
        };
        match crossed {
            Some((edge, Some(target_id))) => match self.find(target_id) {
                Some(j) => {
                    let mapped = map_position(edge, pos, &rect, &self.screens[j].info.rect);
                    Some((target_id, edge, mapped))
                },
                None => None,
            },
            _ => None,
        }
    }

    /// The screens of the layout, in the order in which they were added.
    pub fn screens(&self) -> (infos: Vec<&ScreenInfo>)
        ensures
            infos@.len() == self@.len(),
            forall|i: int| 0 <= i < infos@.len() ==> (#[trigger] infos@[i])@ == self@[i].info,
    {
        let mut infos: Vec<&ScreenInfo> = Vec::new();
        let mut i: usize = 0;
        while i < self.screens.len()
            invariant
                i <= self.screens.len(),
                infos@.len() == i,
                self@.len() == self.screens@.len(),
                forall|k: int| 0 <= k < i ==> (#[trigger] infos@[k])@ == self@[k].info,
            decreases self.screens.len() - i,
        {
            infos.push(&self.screens[i].info);
            i += 1;
        }
        infos
    }
}

/// Where the pointer arrives on the screen at `target` when it leaves the
/// neighboring screen at `pos` across `edge`.
pub fn map_position(edge: Edge, pos: ScreenPosition, _src: &ScreenRect, target: &ScreenRect) -> (at:
    ScreenPosition)
    ensures
        (at.x as int, at.y as int) == mapped_position(edge, pos, *target),
{
    let left: i64 = (target.x as i64) * SUBPIXELS;
    let right: i64 = (target.x as i64 + target.width as i64) * SUBPIXELS;
    let top: i64 = (target.y as i64) * SUBPIXELS;
    let bottom: i64 = (target.y as i64 + target.height as i64) * SUBPIXELS;
    match edge {
        Edge::Left => ScreenPosition { x: right - SUBPIXELS, y: limit(pos.y, top, bottom) },
        Edge::Right => ScreenPosition { x: left, y: limit(pos.y, top, bottom) },
        Edge::Top => ScreenPosition { x: limit(pos.x, left, right), y: bottom - SUBPIXELS },
        Edge::Bottom => ScreenPosition { x: limit(pos.x, left, right), y: top },
    }
}

/// `v` limited to the range from `lo` to `hi`.
fn limit(v: i64, lo: i64, hi: i64) -> (out: i64)
    ensures
        out == clamp(v as int, lo as int, hi as int),
{
    if v < lo {
        lo
    } else if v > hi {
        hi
    } else {
        v
    }
}

/// The pointer arrives on the screen that it crosses to: the coordinate
/// that is carried over lies within the side of the target screen.
pub proof fn lemma_mapped_within_target(edge: Edge, pos: ScreenPosition, target: ScreenRect)
    ensures
        ({
            let (x, y) = mapped_position(edge, pos, target);
            &&& (edge == Edge::Left || edge == Edge::Right) ==> px(target.y as int) <= y <= px(
                target.y + target.height,
            )
            &&& (edge == Edge::Top || edge == Edge::Bottom) ==> px(target.x as int) <= x <= px(
                target.x + target.width,
            )
            &&& edge == Edge::Right ==> x == px(target.x as int)
            &&& edge == Edge::Bottom ==> y == px(target.y as int)
            &&& (edge == Edge::Left && target.width >= 1) ==> px(target.x as int) <= x < px(
                target.x + target.width,
            )
            &&& (edge == Edge::Top && target.height >= 1) ==> px(target.y as int) <= y < px(
                target.y + target.height,
            )
        }),
{
}

/// Linking changes no screen's id, so every screen is found where it was.
proof fn lemma_linked_keeps_positions(
    entries: Seq<ScreenEntryView>,
    from: ScreenId,
    edge: Edge,
    to: ScreenId,
    id: ScreenId,
    start: int,
)
    requires
        0 <= start,
    ensures
        linked(entries, from, edge, to).len() == entries.len(),
        position_from(linked(entries, from, edge, to), id, start) == position_from(
            entries,
            id,
            start,
        ),
    decreases entries.len() - start,
{
    if position_of(entries, from) is Some {
        lemma_position_found(entries, from, 0);
    }
    if start < entries.len() {
        lemma_linked_keeps_positions(entries, from, edge, to, id, start + 1);
    }
}

/// The first screen with a given id is found at a place within the layout
/// and has that id.
proof fn lemma_position_found(entries: Seq<ScreenEntryView>, id: ScreenId, start: int)
    requires
        0 <= start,
        position_from(entries, id, start) is Some,
    ensures
        start <= position_from(entries, id, start)->0 < entries.len(),
        entries[position_from(entries, id, start)->0].info.id == id,
    decreases entries.len() - start,
{
    if start < entries.len() && entries[start].info.id != id {
        lemma_position_found(entries, id, start + 1);
    }
}

/// Once `to` is linked behind the edge `edge` of `from`, and the layout
/// has both screens, the pointer that is on that edge of `from` crosses to
/// `to` and arrives where `to` lies.
pub proof fn lemma_link_then_cross(
    entries: Seq<ScreenEntryView>,
    from: ScreenId,
    edge: Edge,
    to: ScreenId,
    pos: ScreenPosition,
)
    requires
        position_of(entries, from) is Some,
        position_of(entries, to) is Some,
        crossed_edge(entries[position_of(entries, from)->0].info.rect, pos) == Some(edge),
    ensures
        ({
            let target = entries[position_of(entries, to)->0].info.rect;
            let (x, y) = mapped_position(edge, pos, target);
            crossing(linked(entries, from, edge, to), from, pos) == Some(
                (to, edge, ScreenPosition { x: x as i64, y: y as i64 }),
            )
        }),
{
    lemma_linked_keeps_positions(entries, from, edge, to, from, 0);
    lemma_linked_keeps_positions(entries, from, edge, to, to, 0);
    lemma_position_found(entries, from, 0);
    lemma_position_found(entries, to, 0);
}

} // verus!
