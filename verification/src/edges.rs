//! Which device lies behind which edge of the controller's screen.

use vstd::prelude::*;
use crate::screen::Edge;

verus! {

/// A peer bound to an edge, with the size of its screen in pixels.
#[derive(Debug, Clone, PartialEq, Eq)]
pub struct EdgeDevice {
    pub device_id: String,
    pub width: u32,
    pub height: u32,
}

/// An `EdgeDevice` as a mathematical value.
pub struct EdgeDeviceView {
    pub device_id: Seq<char>,
    pub width: u32,
    pub height: u32,
}

impl View for EdgeDevice {
    type V = EdgeDeviceView;

    open spec fn view(&self) -> EdgeDeviceView {
        EdgeDeviceView { device_id: self.device_id@, width: self.width, height: self.height }
    }
}

/// The bindings that are left of `edges` once every binding of the device
/// `device_id` is taken out.
pub open spec fn without_device(
    edges: Map<Edge, EdgeDeviceView>,
    device_id: Seq<char>,
) -> Map<Edge, EdgeDeviceView> {
    Map::new(
        |e: Edge| edges.contains_key(e) && edges[e].device_id != device_id,
        |e: Edge| edges[e],
    )
}

/// A map from edges to devices. An edge holds at most one device.
#[derive(Debug)]
pub struct EdgeDeviceMap {
    top: Option<EdgeDevice>,
    bottom: Option<EdgeDevice>,
    left: Option<EdgeDevice>,
    right: Option<EdgeDevice>,
}

impl EdgeDeviceMap {
    spec fn slot(&self, edge: Edge) -> Option<EdgeDevice> {
        match edge {
            Edge::Top => self.top,
            Edge::Bottom => self.bottom,
            Edge::Left => self.left,
            Edge::Right => self.right,
        }
    }

    /// A map without bindings.
    pub fn new() -> (m: Self)
        ensures
            m@ == Map::<Edge, EdgeDeviceView>::empty(),
    {
        let m = EdgeDeviceMap { top: None, bottom: None, left: None, right: None };
        assert(m@ =~= Map::<Edge, EdgeDeviceView>::empty());
        m
    }

    /// Binds `device` to `edge`, in place of the device that was there.
    pub fn insert(&mut self, edge: Edge, device: EdgeDevice)
        ensures
            final(self)@ == old(self)@.insert(edge, device@),
    {
        match edge {
            Edge::Top => {
                self.top = Some(device);
            },
            Edge::Bottom => {
                self.bottom = Some(device);
            },
            Edge::Left => {
                self.left = Some(device);
            },
            Edge::Right => {
                self.right = Some(device);
            },
        }
        assert(self@ =~= old(self)@.insert(edge, device@));
    }

    /// The device bound to `edge`, if there is one.
    pub fn get(&self, edge: Edge) -> (device: Option<&EdgeDevice>)
        ensures
            match device {
                Some(d) => self@.contains_key(edge) && self@[edge] == d@,
                None => !self@.contains_key(edge),
            },
    {
        match edge {
            Edge::Top => self.top.as_ref(),
            Edge::Bottom => self.bottom.as_ref(),
            Edge::Left => self.left.as_ref(),
            Edge::Right => self.right.as_ref(),
        }
    }

    /// Takes out every binding of the device `device_id`.
    pub fn remove_device(&mut self, device_id: &String)
        ensures
            final(self)@ == without_device(old(self)@, device_id@),
    {
        if holds_device(&self.top, device_id) {
            self.top = None;
        }
        if holds_device(&self.bottom, device_id) {
            self.bottom = None;
        }
        if holds_device(&self.left, device_id) {
            self.left = None;
        }
        if holds_device(&self.right, device_id) {
            self.right = None;
        }
        assert(self@ =~= without_device(old(self)@, device_id@));
    }
}

impl View for EdgeDeviceMap {
    type V = Map<Edge, EdgeDeviceView>;

    closed spec fn view(&self) -> Map<Edge, EdgeDeviceView> {
        Map::new(|e: Edge| self.slot(e) is Some, |e: Edge| self.slot(e)->0@)
    }
}

fn holds_device(slot: &Option<EdgeDevice>, device_id: &String) -> (held: bool)
    ensures
        held == (slot matches Some(d) && d.device_id@ == device_id@),
{
    match slot {
        Some(d) => d.device_id == *device_id,
        None => false,
    }
}

} // verus!
