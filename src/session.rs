//! The session: everything the engine knows at one moment, with the
//! invariant that every operation keeps.
use crate::catalog::{
    AccessPoint,
    BSSID,
    arrange,
    arrange_catalog,
    attach_config,
    lemma_ordered_same_keys,
    catalog_ordered,
    lemma_arrange_ordered,
    find_bssid,
};
use crate::network::{SavedConnection, link_all, link_saved_connections, option_text};
use crate::signal::{ExecutionSignals, FnSIG, VFBTask, is_live, polled, requested};
use vstd::prelude::*;
use vstd::string::*;

verus! {

/// What the engine is doing.
#[derive(PartialEq, Eq, Debug, Clone)]
pub enum AppState {
    /// Nothing.
    Idle,
    /// A scan for access points is under way.
    Scanning,
    /// A connection attempt to this BSSID is under way.
    Connecting(BSSID),
    /// Waiting for the password of this BSSID; `reason` is why the last
    /// attempt failed, 0 when there was none.
    PasswordInput { bssid: String, reason: u32 },
}

impl AppState {
    /// The BSSID of the connection attempt under way.
    pub open spec fn connecting_bssid(self) -> Option<Seq<char>> {
        match self {
            AppState::Connecting(b) => Some(b@),
            _ => None,
        }
    }
}

impl Default for AppState {
    fn default() -> (r: AppState)
        ensures
            r is Idle,
    {
        AppState::Idle
    }
}

/// A looping text animation.
#[derive(Debug)]
pub struct IndicatorAnim {
    /// The frames, shown in turn.
    pub frames: Vec<String>,
    /// How many ticks have passed.
    pub index: usize,
    /// Ticks per second.
    pub fps: u8,
}

impl IndicatorAnim {
    pub open spec fn wf(self) -> bool {
        self.frames.len() > 0 && self.fps > 0
    }

    /// The frame on show.
    pub open spec fn frame_spec(self) -> String {
        self.frames@[self.index as int % self.frames.len() as int]
    }

    /// The frame on show.
    pub fn frame(&self) -> (r: &String)
        requires
            self.wf(),
        ensures
            *r == self.frame_spec(),
    {
        &self.frames[self.index % self.frames.len()]
    }

    /// A scan frame: the spinner glyph, a space, then the name.
    pub fn build_scan(display_name: &str, frame: &str) -> (r: String)
        ensures
            r@ == frame@ + seq![' '] + display_name@,
    {
        let mut s = frame.to_owned();
        s.push(' ');
        s.append(display_name);
        s
    }

    /// A connecting frame, as given.
    pub fn build_connect(frame: &str) -> (r: String)
        ensures
            r@ == frame@,
    {
        frame.to_owned()
    }
}

/// The signal-strength glyphs of open and of protected networks, from
/// excellent to very weak.
#[derive(Debug)]
pub struct WiFiIcon {
    pub open: Vec<char>,
    pub psk: Vec<char>,
}

impl WiFiIcon {
    pub open spec fn wf(self) -> bool {
        self.open.len() == 5 && self.psk.len() == 5
    }
}

impl Default for WiFiIcon {
    fn default() -> (r: WiFiIcon)
        ensures
            r.open@ == seq!['󰤨', '󰤥', '󰤢', '󰤟', '󰤯'],
            r.psk@ == seq!['󰤪', '󰤧', '󰤤', '󰤡', '󰤬'],
    {
        WiFiIcon { open: vec!['󰤨', '󰤥', '󰤢', '󰤟', '󰤯'], psk: vec!['󰤪', '󰤧', '󰤤', '󰤡', '󰤬'] }
    }
}

/// The access point of a connection attempt, taken when it began, and what
/// came with it.
#[derive(Debug)]
pub struct ConnectTarget {
    pub access_point: AccessPoint,
    pub password: Option<String>,
    /// Entered by hand rather than picked from the catalog.
    pub hidden: bool,
    pub reason: u32,
    /// The number of the attempt, which its results carry back.
    pub attempt: u64,
}

/// The whole state of one session.
#[derive(Debug)]
pub struct PrivateData {
    pub anim_scan: IndicatorAnim,
    pub anim_connecting: IndicatorAnim,
    /// The catalog, in display order.
    pub aps: Vec<AccessPoint>,
    pub state: AppState,
    pub icons: WiFiIcon,
    /// The BSSID of the working connection.
    pub active_connection: Option<BSSID>,
    /// The name shown as prompt when idle.
    pub display_name: String,
    /// The network name entered by hand, for a network the catalog lacks.
    pub hidden_ssid: Option<String>,
    /// The task slots of the scan and connect flows.
    pub execution_signal: ExecutionSignals,
    /// The connection attempt under way.
    pub connect_target: Option<ConnectTarget>,
    /// A scan flow has started and not yet handed in its results.
    pub scan_in_flight: bool,
    /// How many connection attempts have started, modulo 2^64.
    pub connect_attempts: u64,
}

impl PrivateData {
    /// The access point that the catalog puts first: the one being
    /// connected to, else the one in use.
    pub open spec fn effective_active(self) -> Option<Seq<char>> {
        match self.state {
            AppState::Connecting(b) => Some(b@),
            _ => option_text(self.active_connection),
        }
    }

    /// Everything the invariant asks but the catalog order.
    pub open spec fn wf_shape(self) -> bool {
        &&& self.anim_scan.wf()
        &&& self.anim_connecting.wf()
        &&& self.icons.wf()
        &&& (is_live(self.execution_signal.scan_task) ==> self.state is Scanning)
        &&& (self.state is Scanning ==> self.scan_in_flight)
        &&& (is_live(self.execution_signal.connect_task) ==> self.state is Connecting)
        &&& (self.state is Connecting <==> self.connect_target is Some)
        &&& (self.connect_target is Some ==> Some(self.connect_target->0.access_point.bssid@)
            == self.state.connecting_bssid())
    }

    /// The session invariant: at most one flow of each kind, and only in the
    /// state it belongs to; the catalog in display order.
    pub open spec fn wf(self) -> bool {
        &&& self.wf_shape()
        &&& catalog_ordered(self.aps@, self.effective_active())
    }

    /// The slot of `task`.
    pub open spec fn slot(self, task: VFBTask) -> FnSIG {
        self.execution_signal.slot(task)
    }

    /// A new idle session over the catalog `cached_aps`, with no flow running.
    pub fn new(cached_aps: Vec<AccessPoint>) -> (r: Self)
        ensures
            r.wf(),
            r.state is Idle,
            r.aps@ == arrange(cached_aps@, None),
            r.active_connection is None,
            r.hidden_ssid is None,
            r.connect_target is None,
            r.execution_signal == (ExecutionSignals {
                scan_task: FnSIG::RespondToShut,
                connect_task: FnSIG::RespondToShut,
            }),
            r.anim_scan.index == 0 && r.anim_scan.fps == 10 && r.anim_scan.frames.len() == 6,
            r.anim_connecting.index == 0 && r.anim_connecting.fps == 4
                && r.anim_connecting.frames.len() == 3,
            r.display_name@ == "wifi"@,
            !r.scan_in_flight,
            r.connect_attempts == 0,
            r.anim_scan.frames@[0]@ == "⠻"@ + seq![' '] + "wifi"@,
            r.anim_scan.frames@[1]@ == "⠽"@ + seq![' '] + "wifi"@,
            r.anim_scan.frames@[2]@ == "⠾"@ + seq![' '] + "wifi"@,
            r.anim_scan.frames@[3]@ == "⠷"@ + seq![' '] + "wifi"@,
            r.anim_scan.frames@[4]@ == "⠯"@ + seq![' '] + "wifi"@,
            r.anim_scan.frames@[5]@ == "⠟"@ + seq![' '] + "wifi"@,
            r.anim_connecting.frames@[0]@ == "connecting ."@,
            r.anim_connecting.frames@[1]@ == "connecting .."@,
            r.anim_connecting.frames@[2]@ == "connecting ..."@,
            r.icons.open@ == seq!['󰤨', '󰤥', '󰤢', '󰤟', '󰤯'],
            r.icons.psk@ == seq!['󰤪', '󰤧', '󰤤', '󰤡', '󰤬'],
    {
        let mut aps = cached_aps;
        arrange_catalog(&mut aps, None);
        proof {
            lemma_arrange_ordered(cached_aps@, None);
        }
        PrivateData {
            anim_scan: IndicatorAnim {
                frames: vec![
                    IndicatorAnim::build_scan("wifi", "⠻"),
                    IndicatorAnim::build_scan("wifi", "⠽"),
                    IndicatorAnim::build_scan("wifi", "⠾"),
                    IndicatorAnim::build_scan("wifi", "⠷"),
                    IndicatorAnim::build_scan("wifi", "⠯"),
                    IndicatorAnim::build_scan("wifi", "⠟"),
                ],
                index: 0,
                fps: 10,
            },
            anim_connecting: IndicatorAnim {
                frames: vec![
                    IndicatorAnim::build_connect("connecting ."),
                    IndicatorAnim::build_connect("connecting .."),
                    IndicatorAnim::build_connect("connecting ..."),
                ],
                index: 0,
                fps: 4,
            },
            aps,
            state: AppState::Idle,
            icons: WiFiIcon::default(),
            active_connection: None,
            display_name: "wifi".to_owned(),
            hidden_ssid: None,
            execution_signal: ExecutionSignals {
                scan_task: FnSIG::RespondToShut,
                connect_task: FnSIG::RespondToShut,
            },
            connect_target: None,
            scan_in_flight: false,
            connect_attempts: 0,
        }
    }

    /// Asks the flow of `field` to stop: true when it already has.
    /// Waiting for the flow is calling this once per tick until it says
    /// true, which the first call after the flow's next poll does.
    pub fn shut(field: &mut FnSIG) -> (done: bool)
        ensures
            done == (*old(field) == FnSIG::RespondToShut),
            *final(field) == requested(*old(field)),
    {
        if *field == FnSIG::RespondToShut {
            return true;
        }
        *field = FnSIG::ShutGracefull;
        false
    }

    /// Asks the scan flow to stop: true once it has. Waiting for the scan to
    /// stop is calling this at the scan's tick rate until it says true.
    pub fn shut_scan(&mut self) -> (done: bool)
        requires
            old(self).wf(),
        ensures
            final(self).wf(),
            done == (old(self).slot(VFBTask::Scan) == FnSIG::RespondToShut),
            *final(self) == (PrivateData {
                execution_signal: old(self).execution_signal.with_slot(
                    VFBTask::Scan,
                    requested(old(self).slot(VFBTask::Scan)),
                ),
                ..*old(self)
            }),
    {
        Self::shut(&mut self.execution_signal.scan_task)
    }

    /// Asks the connect flow to stop: true once it has.
    pub fn shut_connect(&mut self) -> (done: bool)
        requires
            old(self).wf(),
        ensures
            final(self).wf(),
            done == (old(self).slot(VFBTask::Connect) == FnSIG::RespondToShut),
            *final(self) == (PrivateData {
                execution_signal: old(self).execution_signal.with_slot(
                    VFBTask::Connect,
                    requested(old(self).slot(VFBTask::Connect)),
                ),
                ..*old(self)
            }),
    {
        Self::shut(&mut self.execution_signal.connect_task)
    }

    /// Asks the flow of `task` to stop: true once it has.
    pub fn shut_task(&mut self, task: VFBTask) -> (done: bool)
        requires
            old(self).wf(),
        ensures
            final(self).wf(),
            done == (old(self).slot(task) == FnSIG::RespondToShut),
            *final(self) == (PrivateData {
                execution_signal: old(self).execution_signal.with_slot(
                    task,
                    requested(old(self).slot(task)),
                ),
                ..*old(self)
            }),
    {
        match task {
            VFBTask::Scan => self.shut_scan(),
            VFBTask::Connect => self.shut_connect(),
        }
    }

    /// Arms the slot of `task`, right before its flow starts.
    pub fn allow_execute(&mut self, task: VFBTask)
        ensures
            *final(self) == (PrivateData {
                execution_signal: old(self).execution_signal.with_slot(task, FnSIG::CanRun),
                ..*old(self)
            }),
    {
        match task {
            VFBTask::Connect => self.execution_signal.connect_task = FnSIG::CanRun,
            VFBTask::Scan => self.execution_signal.scan_task = FnSIG::CanRun,
        }
    }

    /// The flow of `task` polls its slot: true when it must stop, its slot
    /// then reading `RespondToShut`.
    pub fn pool_shut_signal(&mut self, task: VFBTask) -> (stop: bool)
        requires
            old(self).wf(),
        ensures
            final(self).wf(),
            stop == (old(self).slot(task) != FnSIG::CanRun),
            *final(self) == (PrivateData {
                execution_signal: old(self).execution_signal.with_slot(
                    task,
                    polled(old(self).slot(task)),
                ),
                ..*old(self)
            }),
    {
        task.poll_signal(&mut self.execution_signal)
    }

    /// The time between two ticks of the flow of `task`, in milliseconds.
    pub fn tick_interval_ms(&self, task: VFBTask) -> (r: u64)
        requires
            self.wf(),
        ensures
            r as int == 1000int / (match task {
                VFBTask::Scan => self.anim_scan.fps,
                VFBTask::Connect => self.anim_connecting.fps,
            }) as int,
    {
        let fps = match task {
            VFBTask::Scan => self.anim_scan.fps,
            VFBTask::Connect => self.anim_connecting.fps,
        };
        1000 / fps as u64
    }

    /// Puts the catalog in display order for the current state.
    pub fn sort_accesspoints(&mut self)
        requires
            old(self).wf_shape(),
        ensures
            final(self).wf(),
            final(self).aps@ == arrange(old(self).aps@, old(self).effective_active()),
            *final(self) == (PrivateData { aps: final(self).aps, ..*old(self) }),
    {
        proof {
            lemma_arrange_ordered(self.aps@, self.effective_active());
        }
        let active: Option<&String> = match &self.state {
            AppState::Connecting(b) => Some(b),
            _ => match &self.active_connection {
                Some(b) => Some(b),
                None => None,
            },
        };
        arrange_catalog(&mut self.aps, active);
    }

    /// Records the connection in use, when there is one: its BSSID becomes
    /// the active one, and its saved connection is attached to the first
    /// entry of that BSSID.
    pub fn set_connected(&mut self, signature: Option<(BSSID, String)>)
        requires
            old(self).wf(),
        ensures
            final(self).wf(),
            match signature {
                None => *final(self) == *old(self),
                Some((b, c)) => {
                    &&& final(self).active_connection == Some(b)
                    &&& final(self).aps@ == arrange(
                        attach_config(old(self).aps@, b@, c),
                        final(self).effective_active(),
                    )
                    &&& *final(self) == (PrivateData {
                        aps: final(self).aps,
                        active_connection: Some(b),
                        ..*old(self)
                    })
                },
            },
    {
        if let Some((bssid, config)) = signature {
            if let Some(k) = find_bssid(&self.aps, &bssid) {
                let ghost before = self.aps@;
                let mut ap = self.aps.remove(k);
                ap.setting_path = Some(config);
                self.aps.insert(k, ap);
                assert(self.aps@ =~= attach_config(before, bssid@, config));
            }
            self.active_connection = Some(bssid);
            self.sort_accesspoints();
        }
    }

    /// Forgets the saved connection of entry `index`: the entry stays, with
    /// no saved connection. Gives the network name whose saved connections
    /// are to be deleted, or `None` when the entry had none, or there is no
    /// such entry.
    pub fn forget(&mut self, index: usize) -> (r: Option<String>)
        requires
            old(self).wf(),
        ensures
            final(self).wf(),
            if index < old(self).aps.len() && old(self).aps@[index as int].setting_path is Some {
                &&& r == Some(old(self).aps@[index as int].ssid)
                &&& final(self).aps@ == old(self).aps@.update(
                    index as int,
                    AccessPoint { setting_path: None, ..old(self).aps@[index as int] },
                )
                &&& *final(self) == (PrivateData { aps: final(self).aps, ..*old(self) })
            } else {
                r is None && *final(self) == *old(self)
            },
    {
        if index >= self.aps.len() || self.aps[index].setting_path.is_none() {
            return None;
        }
        let ghost before = self.aps@;
        let mut ap = self.aps.remove(index);
        let ssid = ap.ssid.clone();
        ap.setting_path = None;
        self.aps.insert(index, ap);
        assert(self.aps@ =~= before.update(
            index as int,
            AccessPoint { setting_path: None, ..before[index as int] },
        ));
        proof {
            lemma_ordered_same_keys(before, self.aps@, self.effective_active());
        }
        Some(ssid)
    }

    /// Replaces the catalog by a fresh scan: links the saved connections
    /// and puts it in display order.
    pub fn replace(&mut self, new_list: Vec<AccessPoint>, saved: &Vec<SavedConnection>)
        requires
            old(self).wf(),
        ensures
            final(self).wf(),
            final(self).aps@ == arrange(link_all(new_list@, saved@), old(self).effective_active()),
            *final(self) == (PrivateData { aps: final(self).aps, ..*old(self) }),
    {
        self.aps = link_saved_connections(new_list, saved);
        self.sort_accesspoints();
    }
}

/// At most one background flow is live at any time, and only in the state
/// it belongs to; a live scan animation belongs to the scan flow in flight.
pub proof fn lemma_single_flight(pd: PrivateData)
    requires
        pd.wf(),
    ensures
        !(is_live(pd.slot(VFBTask::Scan)) && is_live(pd.slot(VFBTask::Connect))),
        is_live(pd.slot(VFBTask::Scan)) ==> pd.state is Scanning && pd.scan_in_flight,
        is_live(pd.slot(VFBTask::Connect)) ==> pd.state is Connecting,
{
}

/// Waiting for a flow to stop ends: once its slot has been asked to stop
/// and the flow has polled it, the slot reads `RespondToShut`, which the
/// next request reports as done and leaves as it is.
pub proof fn lemma_await_shutdown_ends(pd: PrivateData, task: VFBTask)
    requires
        pd.wf(),
    ensures
        ({
            let asked = pd.execution_signal.with_slot(task, requested(pd.slot(task)));
            let answered = asked.with_slot(task, polled(asked.slot(task)));
            &&& answered.slot(task) == FnSIG::RespondToShut
            &&& requested(answered.slot(task)) == FnSIG::RespondToShut
        }),
{
    crate::signal::lemma_shutdown_answered(pd.slot(task));
}

} // verus!
