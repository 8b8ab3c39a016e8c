//! The state machine: how the session answers the user, the flows and the
//! network service.
//!
//! A transition that leaves `Scanning` or `Connecting` while that state's
//! flow is live first asks the flow to stop and returns
//! `Step::AwaitShutdown`; the caller waits for the flow to acknowledge (by
//! calling `shut_task` at the flow's tick rate until it says true) and then
//! calls again. So a flow never outlives its state.
use crate::catalog::{AccessPoint, arrange, attach_config, find_bssid, position_of};
use crate::network::{
    ConnectOutcome,
    NM_STATE_CONNECTED_GLOBAL,
    NM_STATE_CONNECTING,
    NM_STATE_DISCONNECTED,
    ScanReport,
    link_all,
    option_text,
};
use crate::session::{AppState, ConnectTarget, IndicatorAnim, PrivateData};
use crate::signal::{FnSIG, VFBTask, is_live, polled, requested};
use vstd::prelude::*;

verus! {

/// The result of a transition.
#[derive(PartialEq, Eq, Structural, Debug, Clone, Copy)]
pub enum Step {
    /// The transition took place.
    Done,
    /// The flow of this slot was asked to stop; call again once it has.
    AwaitShutdown(VFBTask),
}

/// The access point assumed for a network entered by hand.
pub open spec fn synthesized(bssid: String) -> AccessPoint {
    AccessPoint {
        ssid: bssid,
        bssid,
        frequency: 0,
        signal_strength: 0,
        is_protected: true,
        setting_path: None,
    }
}

impl PrivateData {
    /// The live flow that must stop before the state may change.
    pub open spec fn blocking_task(self) -> Option<VFBTask> {
        match self.state {
            AppState::Scanning => if is_live(self.slot(VFBTask::Scan)) {
                Some(VFBTask::Scan)
            } else {
                None
            },
            AppState::Connecting(_) => if is_live(self.slot(VFBTask::Connect)) {
                Some(VFBTask::Connect)
            } else {
                None
            },
            _ => None,
        }
    }

    /// `new` is `self` with the slot of `t` asked to stop.
    pub open spec fn stop_requested(self, new: PrivateData, t: VFBTask) -> bool {
        new == (PrivateData {
            execution_signal: self.execution_signal.with_slot(t, requested(self.slot(t))),
            ..self
        })
    }

    /// A transition that must wait: the live flow is asked to stop, and
    /// nothing else changes.
    pub open spec fn waits(self, new: PrivateData, r: Step) -> bool {
        match self.blocking_task() {
            Some(t) => r == Step::AwaitShutdown(t) && self.stop_requested(new, t),
            None => false,
        }
    }

    /// Whether a connection attempt to `bssid` takes a network entered by
    /// hand: when one was entered, or the catalog lacks `bssid`.
    pub open spec fn connect_hidden(self, bssid: String) -> bool {
        self.hidden_ssid is Some || position_of(self.aps@, bssid@) < 0
    }

    /// The access point that a connection attempt to `bssid` takes.
    pub open spec fn connect_access_point(self, bssid: String) -> AccessPoint {
        if self.connect_hidden(bssid) {
            synthesized(bssid)
        } else {
            self.aps@[position_of(self.aps@, bssid@)]
        }
    }

    /// The session once a connection attempt to `bssid` has started, but for
    /// the catalog order.
    pub open spec fn connect_started(
        self,
        bssid: String,
        password: Option<String>,
        reason: u32,
    ) -> PrivateData {
        PrivateData {
            state: AppState::Connecting(bssid),
            active_connection: None,
            hidden_ssid: None,
            connect_target: Some(
                ConnectTarget {
                    access_point: self.connect_access_point(bssid),
                    password,
                    hidden: self.connect_hidden(bssid),
                    reason,
                    attempt: self.connect_attempts.wrapping_add(1),
                },
            ),
            connect_attempts: self.connect_attempts.wrapping_add(1),
            execution_signal: self.execution_signal.with_slot(VFBTask::Connect, FnSIG::CanRun),
            ..self
        }
    }

    /// Starting a connection attempt to `bssid`.
    pub open spec fn connect_step(
        self,
        new: PrivateData,
        r: Step,
        bssid: String,
        password: Option<String>,
        reason: u32,
    ) -> bool {
        if self.blocking_task() is Some {
            self.waits(new, r)
        } else {
            &&& r == Step::Done
            &&& new.aps@ == arrange(self.aps@, Some(bssid@))
            &&& new == (PrivateData {
                aps: new.aps,
                ..self.connect_started(bssid, password, reason)
            })
        }
    }

    /// The prompt for the password of `bssid`. The catalog is re-arranged
    /// only when leaving a connection attempt, the one change of the entry
    /// that it puts first.
    pub open spec fn prompted(
        self,
        new: PrivateData,
        bssid: String,
        hidden: Option<String>,
        reason: u32,
    ) -> bool {
        let changed = PrivateData {
            state: AppState::PasswordInput { bssid, reason },
            hidden_ssid: hidden,
            connect_target: None,
            ..self
        };
        if self.state is Connecting {
            &&& new.aps@ == arrange(self.aps@, option_text(self.active_connection))
            &&& new == (PrivateData { aps: new.aps, ..changed })
        } else {
            new == changed
        }
    }

    /// The user picking entry `line` (or, past the end, entering the network
    /// `input` by hand) after a failure `reason` (0 for none).
    pub open spec fn password_step(
        self,
        new: PrivateData,
        r: Step,
        line: usize,
        input: String,
        reason: u32,
    ) -> bool {
        if self.blocking_task() is Some {
            self.waits(new, r)
        } else if line >= self.aps.len() {
            r == Step::Done && self.prompted(new, input, Some(input), reason)
        } else if self.aps@[line as int].setting_path is Some && reason == 0 {
            (PrivateData { hidden_ssid: None, ..self }).connect_step(
                new,
                r,
                self.aps@[line as int].bssid,
                None,
                reason,
            )
        } else {
            r == Step::Done && self.prompted(new, self.aps@[line as int].bssid, None, reason)
        }
    }

    /// The user confirming line `line` with the text `input`.
    pub open spec fn confirm_step(self, new: PrivateData, r: Step, line: usize, input: String) -> bool {
        match self.state {
            AppState::PasswordInput { bssid, .. } => (PrivateData {
                anim_connecting: IndicatorAnim { index: 0, ..self.anim_connecting },
                ..self
            }).connect_step(new, r, bssid, Some(input), 0),
            _ => self.password_step(new, r, line, input, 0),
        }
    }

    /// Whether the attempt under way is number `attempt`, to `bssid`.
    pub open spec fn is_attempt(self, bssid: String, attempt: u64) -> bool {
        &&& self.state.connecting_bssid() == Some(bssid@)
        &&& self.connect_target matches Some(t) && t.attempt == attempt
    }

    /// Whether the attempt under way is number `attempt`, to `bssid`.
    fn current_attempt(&self, bssid: &String, attempt: u64) -> (r: bool)
        ensures
            r == self.is_attempt(*bssid, attempt),
    {
        let to_bssid = match &self.state {
            AppState::Connecting(b) => *b == *bssid,
            _ => false,
        };
        let numbered = match &self.connect_target {
            Some(t) => t.attempt == attempt,
            None => false,
        };
        to_bssid && numbered
    }

    /// Asks the live flow that blocks a change of state to stop, and says
    /// which one it was.
    fn preempt(&mut self) -> (r: Option<VFBTask>)
        requires
            old(self).wf(),
        ensures
            final(self).wf(),
            r == old(self).blocking_task(),
            match r {
                Some(t) => old(self).stop_requested(*final(self), t),
                None => *final(self) == *old(self),
            },
    {
        match self.state {
            AppState::Scanning => {
                if self.execution_signal.scan_task != FnSIG::RespondToShut {
                    self.shut_scan();
                    return Some(VFBTask::Scan);
                }
            },
            AppState::Connecting(_) => {
                if self.execution_signal.connect_task != FnSIG::RespondToShut {
                    self.shut_connect();
                    return Some(VFBTask::Connect);
                }
            },
            _ => {},
        }
        None
    }

    /// Starts a connection attempt to `bssid`, taking a copy of its access
    /// point (or assuming one for a network entered by hand) and arming the
    /// connect slot; the flow itself is the caller's.
    pub fn set_mode_connecting_and_handle(
        &mut self,
        bssid: String,
        password: Option<String>,
        reason: u32,
    ) -> (r: Step)
        requires
            old(self).wf(),
        ensures
            final(self).wf(),
            old(self).connect_step(*final(self), r, bssid, password, reason),
    {
        if let Some(t) = self.preempt() {
            return Step::AwaitShutdown(t);
        }
        let found = find_bssid(&self.aps, &bssid);
        let hidden = self.hidden_ssid.is_some() || found.is_none();
        let access_point = match found {
            Some(k) if !hidden => self.aps[k].snapshot(),
            _ => AccessPoint {
                ssid: bssid.clone(),
                bssid: bssid.clone(),
                frequency: 0,
                signal_strength: 0,
                is_protected: true,
                setting_path: None,
            },
        };
        self.hidden_ssid = None;
        self.state = AppState::Connecting(bssid);
        self.active_connection = None;
        self.connect_attempts = self.connect_attempts.wrapping_add(1);
        let attempt = self.connect_attempts;
        self.connect_target = Some(
            ConnectTarget { access_point, password, hidden, reason, attempt },
        );
        self.allow_execute(VFBTask::Connect);
        self.sort_accesspoints();
        Step::Done
    }

    /// The user picked entry `selected_line`, or entered the network `input`
    /// by hand (any line past the end), after a failure `reason`. An entry
    /// with a saved connection and no failure is connected to at once;
    /// otherwise the password is asked for.
    pub fn set_wifi_mode_password(&mut self, selected_line: usize, input: String, reason: u32) -> (r:
        Step)
        requires
            old(self).wf(),
        ensures
            final(self).wf(),
            old(self).password_step(*final(self), r, selected_line, input, reason),
    {
        if let Some(t) = self.preempt() {
            return Step::AwaitShutdown(t);
        }
        let was_connecting = matches!(self.state, AppState::Connecting(_));
        if selected_line >= self.aps.len() {
            self.hidden_ssid = Some(input.clone());
            self.state = AppState::PasswordInput { bssid: input, reason };
            self.connect_target = None;
            if was_connecting {
                self.sort_accesspoints();
            }
            return Step::Done;
        }
        self.hidden_ssid = None;
        let linked = self.aps[selected_line].setting_path.is_some();
        let bssid = self.aps[selected_line].bssid.clone();
        if linked && reason == 0 {
            return self.set_mode_connecting_and_handle(bssid, None, reason);
        }
        self.state = AppState::PasswordInput { bssid, reason };
        self.connect_target = None;
        if was_connecting {
            self.sort_accesspoints();
        }
        Step::Done
    }

    /// The user confirmed a line: in `PasswordInput` the text is the
    /// password and the attempt starts; otherwise the line is picked, as
    /// `set_wifi_mode_password` says, with no failure.
    pub fn handle_state(&mut self, selected_line: usize, input: String) -> (r: Step)
        requires
            old(self).wf(),
        ensures
            final(self).wf(),
            old(self).confirm_step(*final(self), r, selected_line, input),
    {
        let pending: Option<String> = match &self.state {
            AppState::PasswordInput { bssid, .. } => Some(bssid.clone()),
            _ => None,
        };
        match pending {
            Some(bssid) => {
                self.anim_connecting.index = 0;
                self.set_mode_connecting_and_handle(bssid, Some(input), 0)
            },
            None => self.set_wifi_mode_password(selected_line, input, 0),
        }
    }

    /// Starts a scan, if idle and no earlier scan flow is still out: arms
    /// the scan slot and restarts its animation. Otherwise nothing changes
    /// and false comes back; the next periodic tick tries again.
    pub fn set_wifi_mode_scan(&mut self) -> (started: bool)
        requires
            old(self).wf(),
        ensures
            final(self).wf(),
            started == (old(self).state is Idle && !old(self).scan_in_flight),
            started ==> *final(self) == (PrivateData {
                state: AppState::Scanning,
                scan_in_flight: true,
                anim_scan: IndicatorAnim { index: 0, ..old(self).anim_scan },
                execution_signal: old(self).execution_signal.with_slot(VFBTask::Scan, FnSIG::CanRun),
                ..*old(self)
            }),
            !started ==> *final(self) == *old(self),
    {
        if !matches!(self.state, AppState::Idle) || self.scan_in_flight {
            return false;
        }
        self.scan_in_flight = true;
        self.allow_execute(VFBTask::Scan);
        self.anim_scan.index = 0;
        self.state = AppState::Scanning;
        true
    }

    /// One animation tick of the scan flow: false when it must stop (its
    /// slot then acknowledges), else the animation moves on.
    pub fn scan_tick(&mut self) -> (go_on: bool)
        requires
            old(self).wf(),
        ensures
            final(self).wf(),
            go_on == (old(self).slot(VFBTask::Scan) == FnSIG::CanRun),
            go_on ==> *final(self) == (PrivateData {
                anim_scan: IndicatorAnim {
                    index: old(self).anim_scan.index.saturating_add(1),
                    ..old(self).anim_scan
                },
                ..*old(self)
            }),
            !go_on ==> *final(self) == (PrivateData {
                execution_signal: old(self).execution_signal.with_slot(
                    VFBTask::Scan,
                    polled(old(self).slot(VFBTask::Scan)),
                ),
                ..*old(self)
            }),
    {
        if self.pool_shut_signal(VFBTask::Scan) {
            return false;
        }
        self.anim_scan.index = self.anim_scan.index.saturating_add(1);
        true
    }

    /// One animation tick of the connect flow: false when it must stop (its
    /// slot then acknowledges), else the animation moves on.
    pub fn connect_tick(&mut self) -> (go_on: bool)
        requires
            old(self).wf(),
        ensures
            final(self).wf(),
            go_on == (old(self).slot(VFBTask::Connect) == FnSIG::CanRun),
            go_on ==> *final(self) == (PrivateData {
                anim_connecting: IndicatorAnim {
                    index: old(self).anim_connecting.index.saturating_add(1),
                    ..old(self).anim_connecting
                },
                ..*old(self)
            }),
            !go_on ==> *final(self) == (PrivateData {
                execution_signal: old(self).execution_signal.with_slot(
                    VFBTask::Connect,
                    polled(old(self).slot(VFBTask::Connect)),
                ),
                ..*old(self)
            }),
    {
        if self.pool_shut_signal(VFBTask::Connect) {
            return false;
        }
        self.anim_connecting.index = self.anim_connecting.index.saturating_add(1);
        true
    }

    /// Whether the results of the scan under way are still wanted: only
    /// while the state is `Scanning`.
    pub fn scan_results_wanted(&self) -> (r: bool)
        ensures
            r == self.state is Scanning,
    {
        matches!(self.state, AppState::Scanning)
    }

    /// The scan flow ends with `report` (`None` when fetching failed, or
    /// when the results were no longer wanted). The results are applied
    /// only while the state is still `Scanning`, after the scan animation
    /// has stopped; then the session is idle again. Outside `Scanning`
    /// only the flow's end is recorded. Once this returns `Done` no scan
    /// flow is out and the scan slot is drained.
    pub fn finish_scan(&mut self, report: Option<ScanReport>) -> (r: Step)
        requires
            old(self).wf(),
        ensures
            final(self).wf(),
            !(old(self).state is Scanning) ==> r == Step::Done && *final(self) == (PrivateData {
                scan_in_flight: false,
                ..*old(self)
            }),
            r == Step::Done ==> !final(self).scan_in_flight && !is_live(
                final(self).slot(VFBTask::Scan),
            ),
            old(self).state is Scanning && is_live(old(self).slot(VFBTask::Scan)) ==> r
                == Step::AwaitShutdown(VFBTask::Scan) && old(self).stop_requested(
                *final(self),
                VFBTask::Scan,
            ),
            old(self).state is Scanning && !is_live(old(self).slot(VFBTask::Scan)) ==> r
                == Step::Done && match report {
                Some(rep) => {
                    &&& final(self).aps@ == arrange(
                        link_all(rep.access_points@, rep.saved_connections@),
                        old(self).effective_active(),
                    )
                    &&& *final(self) == (PrivateData {
                        aps: final(self).aps,
                        state: AppState::Idle,
                        scan_in_flight: false,
                        ..*old(self)
                    })
                },
                None => *final(self) == (PrivateData {
                    state: AppState::Idle,
                    scan_in_flight: false,
                    ..*old(self)
                }),
            },
    {
        if !matches!(self.state, AppState::Scanning) {
            self.scan_in_flight = false;
            return Step::Done;
        }
        if !self.shut_scan() {
            return Step::AwaitShutdown(VFBTask::Scan);
        }
        assert(self.execution_signal == old(self).execution_signal);
        if let Some(rep) = report {
            self.replace(rep.access_points, &rep.saved_connections);
        }
        self.state = AppState::Idle;
        self.scan_in_flight = false;
        Step::Done
    }

    /// Connection attempt number `attempt`, to `bssid`, ended with
    /// `outcome`, the service having given `config_path` for its
    /// connection. Applied only while that attempt is still the one under
    /// way, after its animation has stopped: on
    /// success the access point becomes the active one and the session
    /// idle; on failure the password is asked for, with the reason.
    pub fn finish_connect(
        &mut self,
        bssid: &String,
        attempt: u64,
        config_path: String,
        outcome: ConnectOutcome,
    ) -> (r: Step)
        requires
            old(self).wf(),
        ensures
            final(self).wf(),
            !old(self).is_attempt(*bssid, attempt) ==> r == Step::Done && *final(self)
                == *old(self),
            old(self).is_attempt(*bssid, attempt) && is_live(
                old(self).slot(VFBTask::Connect),
            ) ==> r == Step::AwaitShutdown(VFBTask::Connect) && old(self).stop_requested(
                *final(self),
                VFBTask::Connect,
            ),
            old(self).is_attempt(*bssid, attempt) && r == Step::Done ==> !is_live(
                final(self).slot(VFBTask::Connect),
            ) && !(final(self).state is Connecting),
            old(self).is_attempt(*bssid, attempt) && !is_live(
                old(self).slot(VFBTask::Connect),
            ) ==> r == Step::Done && match outcome {
                ConnectOutcome::Connected => {
                    &&& final(self).aps@ == arrange(
                        attach_config(old(self).aps@, bssid@, config_path),
                        Some(bssid@),
                    )
                    &&& *final(self) == (PrivateData {
                        aps: final(self).aps,
                        state: AppState::Idle,
                        active_connection: Some(*bssid),
                        connect_target: None,
                        ..*old(self)
                    })
                },
                ConnectOutcome::Failed(reason) => {
                    &&& final(self).aps@ == arrange(
                        old(self).aps@,
                        option_text(old(self).active_connection),
                    )
                    &&& *final(self) == (PrivateData {
                        aps: final(self).aps,
                        state: AppState::PasswordInput { bssid: *bssid, reason },
                        hidden_ssid: if position_of(old(self).aps@, bssid@) < 0 {
                            Some(*bssid)
                        } else {
                            None
                        },
                        connect_target: None,
                        ..*old(self)
                    })
                },
            },
    {
        if !self.current_attempt(bssid, attempt) {
            return Step::Done;
        }
        if !self.shut_connect() {
            return Step::AwaitShutdown(VFBTask::Connect);
        }
        assert(self.execution_signal == old(self).execution_signal);
        match outcome {
            ConnectOutcome::Connected => {
                self.set_connected(Some((bssid.clone(), config_path)));
                self.state = AppState::Idle;
                self.connect_target = None;
            },
            ConnectOutcome::Failed(reason) => {
                let found = find_bssid(&self.aps, bssid);
                self.hidden_ssid = if found.is_none() {
                    Some(bssid.clone())
                } else {
                    None
                };
                self.state = AppState::PasswordInput { bssid: bssid.clone(), reason };
                self.connect_target = None;
                self.sort_accesspoints();
            },
        }
        Step::Done
    }

    /// Connection attempt number `attempt`, to `bssid`, broke off before it
    /// ended (a remote call failed). Applied only while that attempt is
    /// still the one under way,
    /// after its animation has stopped: the session is idle again, with the
    /// catalog as it was.
    pub fn abort_connect(&mut self, bssid: &String, attempt: u64) -> (r: Step)
        requires
            old(self).wf(),
        ensures
            final(self).wf(),
            !old(self).is_attempt(*bssid, attempt) ==> r == Step::Done && *final(self)
                == *old(self),
            old(self).is_attempt(*bssid, attempt) && is_live(
                old(self).slot(VFBTask::Connect),
            ) ==> r == Step::AwaitShutdown(VFBTask::Connect) && old(self).stop_requested(
                *final(self),
                VFBTask::Connect,
            ),
            old(self).is_attempt(*bssid, attempt) && r == Step::Done ==> !is_live(
                final(self).slot(VFBTask::Connect),
            ) && !(final(self).state is Connecting),
            old(self).is_attempt(*bssid, attempt) && !is_live(
                old(self).slot(VFBTask::Connect),
            ) ==> {
                &&& r == Step::Done
                &&& final(self).aps@ == arrange(old(self).aps@, option_text(old(self).active_connection))
                &&& *final(self) == (PrivateData {
                    aps: final(self).aps,
                    state: AppState::Idle,
                    connect_target: None,
                    ..*old(self)
                })
            },
    {
        if !self.current_attempt(bssid, attempt) {
            return Step::Done;
        }
        if !self.shut_connect() {
            return Step::AwaitShutdown(VFBTask::Connect);
        }
        assert(self.execution_signal == old(self).execution_signal);
        self.state = AppState::Idle;
        self.connect_target = None;
        self.sort_accesspoints();
        Step::Done
    }

    /// The network service reports the global network state `code`. A
    /// disconnect clears the active access point; a connect, or a
    /// disconnect, that this session's own attempt did not cause calls for
    /// looking up the active access point again (true), whose result goes
    /// to `set_connected`. While an attempt is under way, connecting and
    /// connected reports are its own and are ignored.
    pub fn on_network_state(&mut self, code: u32) -> (resolve: bool)
        requires
            old(self).wf(),
        ensures
            final(self).wf(),
            resolve == (code == NM_STATE_DISCONNECTED || ((code == NM_STATE_CONNECTING || code
                == NM_STATE_CONNECTED_GLOBAL) && !(old(self).state is Connecting))),
            (code == NM_STATE_DISCONNECTED || (code == NM_STATE_CONNECTING && !(old(
                self,
            ).state is Connecting))) ==> {
                &&& final(self).aps@ == arrange(old(self).aps@, old(self).state.connecting_bssid())
                &&& *final(self) == (PrivateData {
                    aps: final(self).aps,
                    active_connection: None,
                    ..*old(self)
                })
            },
            !(code == NM_STATE_DISCONNECTED || (code == NM_STATE_CONNECTING && !(old(
                self,
            ).state is Connecting))) ==> *final(self) == *old(self),
    {
        let connecting = matches!(self.state, AppState::Connecting(_));
        if code == NM_STATE_DISCONNECTED || (code == NM_STATE_CONNECTING && !connecting) {
            self.active_connection = None;
            self.sort_accesspoints();
            return true;
        }
        code == NM_STATE_CONNECTED_GLOBAL && !connecting
    }

    /// The user backed out: a pending password prompt is dropped and the
    /// session is idle again (true); in any other state nothing changes.
    pub fn cancel(&mut self) -> (left: bool)
        requires
            old(self).wf(),
        ensures
            final(self).wf(),
            left == old(self).state is PasswordInput,
            left ==> *final(self) == (PrivateData {
                state: AppState::Idle,
                hidden_ssid: None,
                ..*old(self)
            }),
            !left ==> *final(self) == *old(self),
    {
        if !matches!(self.state, AppState::PasswordInput { .. }) {
            return false;
        }
        self.state = AppState::Idle;
        self.hidden_ssid = None;
        true
    }
}

} // verus!
