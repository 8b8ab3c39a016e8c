//! What the picker UI reads and sends: the rows to show, the prompt, the
//! entry count, and the user's answers.
use crate::catalog::AccessPoint;
use crate::network::{REASON_NO_SECRETS, option_text};
use crate::session::{AppState, PrivateData};
use crate::state::Step;
use crate::signal::{VFBTask, is_live};
use vstd::prelude::*;
use vstd::string::*;

verus! {

/// The row flags of an entry in use: active, and written in markup.
pub const ROW_ACTIVE_MARKUP: i32 = 12;

/// The gap between the icon and the network name.
pub const ICON_GAP: &'static str = "  ";

/// The markup around a row's status text.
pub const LABEL_OPEN: &'static str = " <span size='small' foreground='#639ec5ff' alpha='80%'>";

pub const LABEL_CLOSE: &'static str = "</span>";

/// The status text of the access point in use.
pub const CONNECTED_LABEL: &'static str = "(contected)";

pub const PROMPT_PASSWORD: &'static str = "password";

pub const PROMPT_BAD_AUTH: &'static str = "bad auth";

pub const PROMPT_FAIL: &'static str = "fail";

/// The icon slot of a signal strength: excellent (70 and up), good (50 to
/// 69), fair (30 to 49), weak (10 to 29), very weak (below 10).
pub open spec fn strength_bucket(strength: u8) -> int {
    if strength >= 70 {
        0
    } else if 50 <= strength <= 69 {
        1
    } else if 30 <= strength <= 49 {
        2
    } else if 10 <= strength <= 29 {
        3
    } else {
        4
    }
}

/// The icon of an access point's row.
pub open spec fn row_icon(pd: PrivateData, ap: AccessPoint) -> char {
    if ap.is_protected {
        pd.icons.psk@[strength_bucket(ap.signal_strength)]
    } else {
        pd.icons.open@[strength_bucket(ap.signal_strength)]
    }
}

/// The status text of an access point's row: the connecting animation for
/// the attempt under way, a mark for the one in use.
pub open spec fn row_label(pd: PrivateData, ap: AccessPoint) -> Option<Seq<char>> {
    if pd.state.connecting_bssid() == Some(ap.bssid@) {
        Some(pd.anim_connecting.frame_spec()@)
    } else if option_text(pd.active_connection) == Some(ap.bssid@) {
        Some(CONNECTED_LABEL@)
    } else {
        None
    }
}

/// A row: icon, gap, network name, then the status text in markup.
pub open spec fn row_text(icon: char, ssid: Seq<char>, label: Option<Seq<char>>) -> Seq<char> {
    match label {
        Some(t) => seq![icon] + ICON_GAP@ + ssid + LABEL_OPEN@ + t + LABEL_CLOSE@,
        None => seq![icon] + ICON_GAP@ + ssid,
    }
}

/// A session that is there is well formed.
pub open spec fn present_wf(pd: Option<&PrivateData>) -> bool {
    match pd {
        Some(p) => p.wf(),
        None => true,
    }
}

/// The number of rows: none while a password is asked for, so that the UI
/// shows a bare text entry, and none without a session.
pub fn wifi_mode_get_num_entries(pd: Option<&PrivateData>) -> (r: u32)
    ensures
        r == match pd {
            Some(p) => if p.state is PasswordInput {
                0
            } else if p.aps.len() > u32::MAX {
                u32::MAX
            } else {
                p.aps.len() as u32
            },
            None => 0,
        },
{
    match pd {
        Some(p) => {
            if matches!(p.state, AppState::PasswordInput { .. }) {
                0
            } else if p.aps.len() > u32::MAX as usize {
                u32::MAX
            } else {
                p.aps.len() as u32
            }
        },
        None => 0,
    }
}

fn strength_icon(icons: &Vec<char>, strength: u8) -> (c: char)
    requires
        icons.len() == 5,
    ensures
        c == icons@[strength_bucket(strength)],
{
    if strength >= 70 {
        icons[0]
    } else if 50 <= strength && strength <= 69 {
        icons[1]
    } else if 30 <= strength && strength <= 49 {
        icons[2]
    } else if 10 <= strength && strength <= 29 {
        icons[3]
    } else {
        icons[4]
    }
}

/// The text of row `selected_line`: `None` when no entry is asked for
/// (`get_entry` is 0), there is no session, or no such row. A row with a
/// status text also sets the active and markup flags in `state`.
pub fn wifi_mode_get_display_value(
    pd: Option<&PrivateData>,
    selected_line: usize,
    state: &mut i32,
    get_entry: i32,
) -> (r: Option<String>)
    requires
        present_wf(pd),
    ensures
        match pd {
            Some(p) if get_entry != 0 && selected_line < p.aps.len() => {
                let ap = p.aps@[selected_line as int];
                let label = row_label(*p, ap);
                &&& r is Some
                &&& r->0@ == row_text(row_icon(*p, ap), ap.ssid@, label)
                &&& *final(state) == if label is Some {
                    *old(state) | ROW_ACTIVE_MARKUP
                } else {
                    *old(state)
                }
            },
            _ => r is None && *final(state) == *old(state),
        },
{
    if get_entry == 0 {
        return None;
    }
    let p = match pd {
        Some(p) => p,
        None => return None,
    };
    if selected_line >= p.aps.len() {
        return None;
    }
    let ap = &p.aps[selected_line];
    let icon = if ap.is_protected {
        strength_icon(&p.icons.psk, ap.signal_strength)
    } else {
        strength_icon(&p.icons.open, ap.signal_strength)
    };
    let connecting = match &p.state {
        AppState::Connecting(b) => *b == ap.bssid,
        _ => false,
    };
    let active = match &p.active_connection {
        Some(b) => *b == ap.bssid,
        None => false,
    };
    let mut row = String::new();
    row.push(icon);
    row.append(ICON_GAP);
    row.append(ap.ssid.as_str());
    if connecting || active {
        *state = *state | ROW_ACTIVE_MARKUP;
        row.append(LABEL_OPEN);
        if connecting {
            row.append(p.anim_connecting.frame().as_str());
        } else {
            row.append(CONNECTED_LABEL);
        }
        row.append(LABEL_CLOSE);
    }
    Some(row)
}

impl PrivateData {
    /// The prompt to show.
    pub open spec fn prompt_text(self) -> Seq<char> {
        match self.state {
            AppState::Idle => self.display_name@,
            AppState::Scanning => self.anim_scan.frame_spec()@,
            AppState::Connecting(_) => self.anim_connecting.frame_spec()@,
            AppState::PasswordInput { reason, .. } => if reason == REASON_NO_SECRETS {
                PROMPT_BAD_AUTH@
            } else if reason == 0 {
                PROMPT_PASSWORD@
            } else {
                PROMPT_FAIL@
            },
        }
    }

    /// The prompt to show: the name when idle, the animation frame while
    /// scanning or connecting, and while a password is asked for, why:
    /// "password" at first, "bad auth" after missing or wrong secrets,
    /// "fail" after any other failure.
    pub fn prompt(&self) -> (r: String)
        requires
            self.wf(),
        ensures
            r@ == self.prompt_text(),
    {
        match &self.state {
            AppState::Idle => self.display_name.clone(),
            AppState::Scanning => self.anim_scan.frame().clone(),
            AppState::Connecting(_) => self.anim_connecting.frame().clone(),
            AppState::PasswordInput { reason, .. } => {
                if *reason == REASON_NO_SECRETS {
                    PROMPT_BAD_AUTH.to_owned()
                } else if *reason == 0 {
                    PROMPT_PASSWORD.to_owned()
                } else {
                    PROMPT_FAIL.to_owned()
                }
            },
        }
    }
}

/// The text that the UI's filter matches against row `index`: its network
/// name; none while a password is asked for, without a session, or past
/// the end.
pub fn token_match_subject(pd: Option<&PrivateData>, index: usize) -> (r: Option<String>)
    ensures
        match pd {
            Some(p) if !(p.state is PasswordInput) && index < p.aps.len() => r == Some(
                p.aps@[index as int].ssid,
            ),
            _ => r is None,
        },
{
    match pd {
        Some(p) => {
            if matches!(p.state, AppState::PasswordInput { .. }) || index >= p.aps.len() {
                None
            } else {
                Some(p.aps[index].ssid.clone())
            }
        },
        None => None,
    }
}

/// Ends the session, once both flows have stopped (waited for as
/// `shut_task` says): it is dropped, and with it every flow's hold on it.
pub fn wifi_mode_destory(pd: &mut Option<PrivateData>)
    requires
        match *old(pd) {
            Some(p) => !is_live(p.slot(VFBTask::Scan)) && !is_live(p.slot(VFBTask::Connect)),
            None => true,
        },
    ensures
        *final(pd) is None,
{
    *pd = None;
}

/// What the user did with the picker.
#[derive(PartialEq, Eq, Structural, Debug, Clone, Copy)]
pub enum MenuAction {
    /// Go to the next mode.
    Next,
    /// Go to the previous mode.
    Previous,
    /// Jump to the mode of this index.
    QuickSwitch(u32),
    /// Confirm the selected line.
    Accept,
    /// Confirm text that matches no line.
    CustomInput,
    /// Delete the selected line.
    Delete,
    /// Anything else, as backing out.
    Cancel,
}

/// What the UI is to do next.
#[derive(PartialEq, Eq, Debug, Clone)]
pub enum ModeReply {
    Exit,
    NextDialog,
    PreviousDialog,
    SwitchMode(u32),
    ResetDialog,
    ReloadDialog,
    /// Delete the saved wireless connections of this network name, then
    /// reload.
    Forget(String),
    /// Wait for the flow of this slot to stop, then send the same answer
    /// again.
    Wait(VFBTask),
}

/// The reply to a confirmation that took `step`.
pub open spec fn reply_of(step: Step) -> ModeReply {
    match step {
        Step::Done => ModeReply::ResetDialog,
        Step::AwaitShutdown(t) => ModeReply::Wait(t),
    }
}

/// Answers the user: mode switches pass through; a confirmation goes to
/// `handle_state`; a deletion forgets the line's saved connection (and asks
/// for the remote deletion only when there was one); backing out of a
/// password prompt returns to idle, and otherwise leaves.
pub fn wifi_mode_result(
    pd: &mut PrivateData,
    action: MenuAction,
    input: String,
    selected_line: usize,
) -> (r: ModeReply)
    requires
        old(pd).wf(),
    ensures
        final(pd).wf(),
        match action {
            MenuAction::Next => r == ModeReply::NextDialog && *final(pd) == *old(pd),
            MenuAction::Previous => r == ModeReply::PreviousDialog && *final(pd) == *old(pd),
            MenuAction::QuickSwitch(n) => r == ModeReply::SwitchMode(n) && *final(pd) == *old(pd),
            MenuAction::Accept | MenuAction::CustomInput => exists|step: Step|
                #[trigger] old(pd).confirm_step(*final(pd), step, selected_line, input) && r
                    == reply_of(step),
            MenuAction::Delete => if selected_line < old(pd).aps.len() && old(
                pd,
            ).aps@[selected_line as int].setting_path is Some {
                &&& r == ModeReply::Forget(old(pd).aps@[selected_line as int].ssid)
                &&& final(pd).aps@ == old(pd).aps@.update(
                    selected_line as int,
                    AccessPoint { setting_path: None, ..old(pd).aps@[selected_line as int] },
                )
                &&& *final(pd) == (PrivateData { aps: final(pd).aps, ..*old(pd) })
            } else {
                r == ModeReply::ReloadDialog && *final(pd) == *old(pd)
            },
            MenuAction::Cancel => if old(pd).state is PasswordInput {
                &&& r == ModeReply::ReloadDialog
                &&& *final(pd) == (PrivateData {
                    state: AppState::Idle,
                    hidden_ssid: None,
                    ..*old(pd)
                })
            } else {
                r == ModeReply::Exit && *final(pd) == *old(pd)
            },
        },
{
    match action {
        MenuAction::Next => ModeReply::NextDialog,
        MenuAction::Previous => ModeReply::PreviousDialog,
        MenuAction::QuickSwitch(n) => ModeReply::SwitchMode(n),
        MenuAction::Accept | MenuAction::CustomInput => {
            match pd.handle_state(selected_line, input) {
                Step::Done => ModeReply::ResetDialog,
                Step::AwaitShutdown(t) => ModeReply::Wait(t),
            }
        },
        MenuAction::Delete => match pd.forget(selected_line) {
            Some(ssid) => ModeReply::Forget(ssid),
            None => ModeReply::ReloadDialog,
        },
        MenuAction::Cancel => {
            if pd.cancel() {
                ModeReply::ReloadDialog
            } else {
                ModeReply::Exit
            }
        },
    }
}

} // verus!
