//! What a front end shows of the program: its role, whether it is
//! connected, and the devices that are attached.

use vstd::prelude::*;
use vstd::string::StringExecFns;
use crate::events::{ClientEvent, ClientEventView, ServerEvent, ServerEventView};

verus! {

/// What the program runs as.
#[derive(Debug, Clone, Copy, PartialEq, Eq, Structural)]
pub enum Role {
    Idle,
    Server,
    Client,
}

/// An attached device, for display.
#[derive(Debug, Clone, PartialEq, Eq)]
pub struct DeviceInfo {
    pub device_id: String,
    pub device_name: String,
}

/// A `DeviceInfo` as a mathematical value.
pub struct DeviceInfoView {
    pub device_id: Seq<char>,
    pub device_name: Seq<char>,
}

impl View for DeviceInfo {
    type V = DeviceInfoView;

    open spec fn view(&self) -> DeviceInfoView {
        DeviceInfoView { device_id: self.device_id@, device_name: self.device_name@ }
    }
}

/// A list of devices as mathematical values.
pub open spec fn devices_view(devices: Seq<DeviceInfo>) -> Seq<DeviceInfoView> {
    devices.map_values(|d: DeviceInfo| d@)
}

/// What a front end shows.
#[derive(Debug, Clone, PartialEq, Eq)]
pub struct AppStatus {
    pub role: Role,
    pub connected: bool,
    pub devices: Vec<DeviceInfo>,
}

/// An `AppStatus` as a mathematical value.
pub struct AppStatusView {
    pub role: Role,
    pub connected: bool,
    pub devices: Seq<DeviceInfoView>,
}

impl View for AppStatus {
    type V = AppStatusView;

    open spec fn view(&self) -> AppStatusView {
        AppStatusView {
            role: self.role,
            connected: self.connected,
            devices: devices_view(self.devices@),
        }
    }
}

/// What refuses a start while the program already runs.
pub open spec fn already_running() -> Seq<char> {
    "Already running"@
}

impl AppStatusView {
    /// The status of a program that runs as nothing.
    pub open spec fn idle() -> AppStatusView {
        AppStatusView { role: Role::Idle, connected: false, devices: Seq::empty() }
    }

    /// The status once the program has started as a controller. A
    /// controller counts as connected from the start.
    pub open spec fn started_server(self) -> AppStatusView {
        AppStatusView { role: Role::Server, connected: true, ..self }
    }

    /// The status once the program has started as a peer, which is not
    /// connected before its handshake is done.
    pub open spec fn started_client(self) -> AppStatusView {
        AppStatusView { role: Role::Client, ..self }
    }

    /// The status after an event of the controller: a device that
    /// connected joins the list, and a device that is gone leaves it.
    pub open spec fn after_server_event(self, event: ServerEventView) -> AppStatusView {
        match event {
            ServerEventView::DeviceConnected { device_id, device_name } => AppStatusView {
                devices: self.devices.push(DeviceInfoView { device_id, device_name }),
                ..self
            },
            ServerEventView::DeviceDisconnected { device_id } => AppStatusView {
                devices: self.devices.filter(|d: DeviceInfoView| d.device_id != device_id),
                ..self
            },
            _ => self,
        }
    }

    /// The status after an event of the peer.
    pub open spec fn after_client_event(self, event: ClientEventView) -> AppStatusView {
        match event {
            ClientEventView::Connected { .. } => AppStatusView { connected: true, ..self },
            ClientEventView::Disconnected => AppStatusView { connected: false, ..self },
            _ => self,
        }
    }
}

/// What the program runs as, and what of it a front end shows.
#[derive(Debug)]
pub struct AppState {
    role: Role,
    connected: bool,
    devices: Vec<DeviceInfo>,
}

impl View for AppState {
    type V = AppStatusView;

    closed spec fn view(&self) -> AppStatusView {
        AppStatusView {
            role: self.role,
            connected: self.connected,
            devices: devices_view(self.devices@),
        }
    }
}

impl Default for AppState {
    /// The state of a program that runs as nothing.
    fn default() -> (state: Self)
        ensures
            state@ == AppStatusView::idle(),
    {
        let state = AppState { role: Role::Idle, connected: false, devices: Vec::new() };
        assert(state@.devices =~= Seq::<DeviceInfoView>::empty());
        state
    }
}

impl AppState {
    /// Starts the program as a controller, unless it already runs.
    pub fn start_server(&mut self) -> (started: Result<(), String>)
        ensures
            old(self)@.role == Role::Idle ==> started is Ok && final(self)@ == old(
                self,
            )@.started_server(),
            old(self)@.role != Role::Idle ==> (started matches Err(why) && why@
                == already_running()) && final(self)@ == old(self)@,
    {
        if self.role != Role::Idle {
            return Err(String::from_str("Already running"));
        }
        self.role = Role::Server;
        self.connected = true;
        Ok(())
    }

    /// Starts the program as a peer, unless it already runs.
    pub fn start_client(&mut self) -> (started: Result<(), String>)
        ensures
            old(self)@.role == Role::Idle ==> started is Ok && final(self)@ == old(
                self,
            )@.started_client(),
            old(self)@.role != Role::Idle ==> (started matches Err(why) && why@
                == already_running()) && final(self)@ == old(self)@,
    {
        if self.role != Role::Idle {
            return Err(String::from_str("Already running"));
        }
        self.role = Role::Client;
        Ok(())
    }

    /// Stops what runs and says whether anything did.
    pub fn stop(&mut self) -> (was_running: bool)
        ensures
            was_running == (old(self)@.role != Role::Idle),
            was_running ==> final(self)@ == AppStatusView::idle(),
            !was_running ==> final(self)@ == old(self)@,
    {
        if self.role == Role::Idle {
            return false;
        }
        self.finish();
        true
    }

    /// Goes back to running as nothing, as when a run has ended.
    pub fn finish(&mut self)
        ensures
            final(self)@ == AppStatusView::idle(),
    {
        self.role = Role::Idle;
        self.connected = false;
        self.devices.clear();
        assert(self@.devices =~= Seq::<DeviceInfoView>::empty());
    }

    /// What a front end shows now.
    pub fn get_status(&self) -> (status: AppStatus)
        ensures
            status@ == self@,
    {
        let mut devices: Vec<DeviceInfo> = Vec::new();
        let mut i: usize = 0;
        while i < self.devices.len()
            invariant
                i <= self.devices.len(),
                devices_view(devices@) == devices_view(self.devices@.take(i as int)),
            decreases self.devices.len() - i,
        {
            let d = &self.devices[i];
            let ghost before = devices@;
            devices.push(
                DeviceInfo { device_id: d.device_id.clone(), device_name: d.device_name.clone() },
            );
            assert(devices_view(devices@) =~= devices_view(before).push(d@));
            assert(devices_view(self.devices@.take(i + 1)) =~= devices_view(
                self.devices@.take(i as int),
            ).push(d@));
            i += 1;
        }
        assert(self.devices@.take(i as int) =~= self.devices@);
        AppStatus { role: self.role, connected: self.connected, devices }
    }

    /// Takes note of an event of the controller.
    pub fn apply_server_event(&mut self, event: &ServerEvent)
        ensures
            final(self)@ == old(self)@.after_server_event(event@),
    {
        match event {
            ServerEvent::DeviceConnected { device_id, device_name } => {
                self.devices.push(
                    DeviceInfo { device_id: device_id.clone(), device_name: device_name.clone() },
                );
                assert(self@.devices =~= old(self)@.after_server_event(event@).devices);
            },
            ServerEvent::DeviceDisconnected { device_id } => {
                self.forget(device_id);
            },
            _ => {},
        }
    }

    /// Takes the device `device_id` off the list, wherever it stands.
    fn forget(&mut self, device_id: &String)
        ensures
            final(self)@ == (AppStatusView {
                devices: old(self)@.devices.filter(
                    |d: DeviceInfoView| d.device_id != device_id@,
                ),
                ..old(self)@
            }),
    {
        let ghost keep = |d: DeviceInfoView| d.device_id != device_id@;
        let mut kept: Vec<DeviceInfo> = Vec::new();
        let mut i: usize = 0;
        while i < self.devices.len()
            invariant
                i <= self.devices.len(),
                keep == |d: DeviceInfoView| d.device_id != device_id@,
                devices_view(kept@) == devices_view(self.devices@.take(i as int)).filter(keep),
            decreases self.devices.len() - i,
        {
            let d = &self.devices[i];
            proof {
                let before = devices_view(self.devices@.take(i as int));
                let now = devices_view(self.devices@.take(i + 1));
                assert(now.drop_last() =~= before);
                assert(now.last() == d@);
                reveal(Seq::filter);
            }
            if d.device_id != *device_id {
                kept.push(
                    DeviceInfo {
                        device_id: d.device_id.clone(),
                        device_name: d.device_name.clone(),
                    },
                );
                assert(devices_view(kept@) =~= devices_view(
                    self.devices@.take(i as int),
                ).filter(keep).push(d@));
            }
            i += 1;
        }
        assert(self.devices@.take(i as int) =~= self.devices@);
        self.devices = kept;
    }

    /// Takes note of an event of the peer.
    pub fn apply_client_event(&mut self, event: &ClientEvent)
        ensures
            final(self)@ == old(self)@.after_client_event(event@),
    {
        match event {
            ClientEvent::Connected { .. } => {
                self.connected = true;
            },
            ClientEvent::Disconnected => {
                self.connected = false;
            },
            _ => {},
        }
    }
}

} // verus!
