//! What is decided about the network service's data: which access points
//! are kept, which saved connection belongs to which access point, what a
//! device-state change means for a connection attempt, and which connection
//! to ask for.
use crate::catalog::{AccessPoint, arrange, lemma_arrange_ordered};
use crate::codec::{
    bssid_from_bytes,
    bssid_to_bytes,
    bssid_bytes,
    decode_ssid,
    generate_uuid,
    uuid_text,
    hex_join,
    lossy_utf8,
    same_text,
};
use vstd::prelude::*;
use vstd::string::*;
use vstd::utf8::encode_utf8;

verus! {

/// The device type of a wireless device.
pub const WIRELESS_DEVICE_TYPE: u32 = 2;

/// The security flag of an access point that asks for 802.1X
/// (enterprise) authentication, which is not supported.
pub const KEY_MGMT_802_1X: u32 = 512;

/// The connection type of a wireless connection.
pub const WIRELESS_TYPE: &'static str = "802-11-wireless";

/// The network state: disconnected.
pub const NM_STATE_DISCONNECTED: u32 = 20;

/// The network state: a connection is being made.
pub const NM_STATE_CONNECTING: u32 = 40;

/// The network state: connected, with full access.
pub const NM_STATE_CONNECTED_GLOBAL: u32 = 70;

/// The failure reason of a connection attempt that lacked the right secrets.
pub const REASON_NO_SECRETS: u32 = 7;

/// The device state of a working connection.
pub const DEVICE_ACTIVATED: u32 = 100;

/// The device state of a failed connection attempt.
pub const DEVICE_FAILED: u32 = 120;

/// Whether a device is the wireless device of the interface `iface`.
pub fn is_target_device(dev_type: u32, iface_name: &str, iface: &str) -> (r: bool)
    ensures
        r == (dev_type == WIRELESS_DEVICE_TYPE && iface_name@ == iface@),
{
    dev_type == WIRELESS_DEVICE_TYPE && same_text(iface_name, iface)
}

/// The access point of these properties, unless it asks for enterprise
/// authentication.
pub open spec fn access_point_of(
    wpa_flags: u32,
    rsn_flags: u32,
    ssid: String,
    signal_strength: u8,
    bssid: String,
    frequency: u32,
    flags: u32,
) -> Option<AccessPoint> {
    if wpa_flags & KEY_MGMT_802_1X == KEY_MGMT_802_1X || rsn_flags & KEY_MGMT_802_1X
        == KEY_MGMT_802_1X {
        None
    } else {
        Some(
            AccessPoint {
                ssid,
                bssid,
                frequency,
                signal_strength,
                is_protected: flags & 1 == 1,
                setting_path: None,
            },
        )
    }
}

/// Builds an access point from its decoded properties; `None` when it asks
/// for enterprise authentication.
pub fn access_point_with_ssid(
    wpa_flags: u32,
    rsn_flags: u32,
    ssid: String,
    signal_strength: u8,
    bssid: String,
    frequency: u32,
    flags: u32,
) -> (r: Option<AccessPoint>)
    ensures
        r == access_point_of(wpa_flags, rsn_flags, ssid, signal_strength, bssid, frequency, flags),
{
    if wpa_flags & KEY_MGMT_802_1X == KEY_MGMT_802_1X || rsn_flags & KEY_MGMT_802_1X
        == KEY_MGMT_802_1X {
        return None;
    }
    Some(
        AccessPoint {
            ssid,
            bssid,
            frequency,
            signal_strength,
            is_protected: flags & 1 == 1,
            setting_path: None,
        },
    )
}

/// Builds an access point from its raw properties, the name given as bytes.
pub fn access_point_from_properties(
    wpa_flags: u32,
    rsn_flags: u32,
    ssid: &Vec<u8>,
    signal_strength: u8,
    bssid: String,
    frequency: u32,
    flags: u32,
) -> (r: Option<AccessPoint>)
    ensures
        r is None <==> (wpa_flags & KEY_MGMT_802_1X == KEY_MGMT_802_1X || rsn_flags
            & KEY_MGMT_802_1X == KEY_MGMT_802_1X),
        r is Some ==> r->0.ssid@ == lossy_utf8(ssid@) && r->0.bssid == bssid
            && r->0.frequency == frequency && r->0.signal_strength == signal_strength
            && r->0.is_protected == (flags & 1 == 1) && r->0.setting_path is None,
{
    let name = decode_ssid(ssid);
    access_point_with_ssid(wpa_flags, rsn_flags, name, signal_strength, bssid, frequency, flags)
}

/// A saved connection as the service lists it; a part that is missing or
/// of another shape is `None`.
#[derive(Debug, Clone)]
pub struct SavedConnection {
    /// Where the service keeps it.
    pub path: String,
    pub uuid: Option<String>,
    pub connection_type: Option<String>,
    /// The hardware address it is bound to.
    pub bssid: Option<Vec<u8>>,
}

/// What a scan brought: the access points in range and the saved
/// connections.
#[derive(Debug, Clone)]
pub struct ScanReport {
    pub access_points: Vec<AccessPoint>,
    pub saved_connections: Vec<SavedConnection>,
}

/// The BSSID that a saved connection is linked to: that of a wireless
/// connection bound to a hardware address.
pub open spec fn link_target(c: SavedConnection) -> Option<Seq<char>> {
    match (c.connection_type, c.bssid) {
        (Some(t), Some(b)) => if t@ == WIRELESS_TYPE@ {
            Some(hex_join(b@))
        } else {
            None
        },
        _ => None,
    }
}

/// The path of the last saved connection linked to BSSID `b`.
pub open spec fn last_link(b: Seq<char>, saved: Seq<SavedConnection>) -> Option<String>
    decreases saved.len(),
{
    if saved.len() == 0 {
        None
    } else if link_target(saved.last()) == Some(b) {
        Some(saved.last().path)
    } else {
        last_link(b, saved.drop_last())
    }
}

/// An access point with the saved connection linked to it, if any.
pub open spec fn linked_entry(ap: AccessPoint, saved: Seq<SavedConnection>) -> AccessPoint {
    match last_link(ap.bssid@, saved) {
        Some(p) => AccessPoint { setting_path: Some(p), ..ap },
        None => ap,
    }
}

/// Each access point with the saved connection linked to it.
pub open spec fn link_all(aps: Seq<AccessPoint>, saved: Seq<SavedConnection>) -> Seq<
    AccessPoint,
> {
    aps.map_values(|ap: AccessPoint| linked_entry(ap, saved))
}

pub open spec fn option_text(o: Option<String>) -> Option<Seq<char>> {
    match o {
        Some(s) => Some(s@),
        None => None,
    }
}

proof fn lemma_no_link(b: Seq<char>, saved: Seq<SavedConnection>)
    requires
        forall|k: int| 0 <= k < saved.len() ==> link_target(#[trigger] saved[k]) != Some(b),
    ensures
        last_link(b, saved) is None,
    decreases saved.len(),
{
    if saved.len() > 0 {
        assert(link_target(saved[saved.len() - 1]) != Some(b));
        lemma_no_link(b, saved.drop_last());
    }
}

/// Once the saved connections of an access point are gone for good, a
/// fresh scan leaves it unlinked: when the scanned entries carry no saved
/// connection and none of `saved` is linked to BSSID `b`, no entry of BSSID
/// `b` in the new catalog has one, whatever the order.
pub proof fn lemma_forgotten_stays_unlinked(
    aps: Seq<AccessPoint>,
    saved: Seq<SavedConnection>,
    b: Seq<char>,
    active: Option<Seq<char>>,
)
    requires
        forall|i: int| 0 <= i < aps.len() ==> (#[trigger] aps[i]).setting_path is None,
        forall|k: int| 0 <= k < saved.len() ==> link_target(#[trigger] saved[k]) != Some(b),
    ensures
        forall|i: int|
            0 <= i < arrange(link_all(aps, saved), active).len() && (#[trigger] arrange(
                link_all(aps, saved),
                active,
            )[i]).bssid@ == b ==> arrange(link_all(aps, saved), active)[i].setting_path is None,
{
    broadcast use vstd::seq_lib::group_to_multiset_ensures;

    lemma_no_link(b, saved);
    let l = link_all(aps, saved);
    let r = arrange(l, active);
    lemma_arrange_ordered(l, active);
    assert forall|i: int| 0 <= i < r.len() && (#[trigger] r[i]).bssid@ == b implies r[i].setting_path is None by {
        assert(r.contains(r[i]));
        vstd::seq_lib::to_multiset_contains(r, r[i]);
        vstd::seq_lib::to_multiset_contains(l, r[i]);
        let j = choose|j: int| 0 <= j < l.len() && l[j] == r[i];
        assert(l[j] == linked_entry(aps[j], saved));
    }
}

/// The BSSID text that a saved connection is linked to.
pub fn saved_link_target(c: &SavedConnection) -> (r: Option<String>)
    ensures
        option_text(r) == link_target(*c),
{
    match (&c.connection_type, &c.bssid) {
        (Some(t), Some(b)) => {
            if same_text(t.as_str(), WIRELESS_TYPE) {
                Some(bssid_from_bytes(b))
            } else {
                None
            }
        },
        _ => None,
    }
}

/// Links each access point to its saved connection: the last one in
/// `saved` that is linked to its BSSID.
pub fn link_saved_connections(aps: Vec<AccessPoint>, saved: &Vec<SavedConnection>) -> (r: Vec<
    AccessPoint,
>)
    ensures
        r@ == link_all(aps@, saved@),
{
    let mut targets: Vec<Option<String>> = Vec::new();
    let mut k: usize = 0;
    while k < saved.len()
        invariant
            k <= saved.len(),
            targets.len() == k,
            forall|j: int| 0 <= j < k ==> option_text(#[trigger] targets@[j]) == link_target(saved@[j]),
        decreases saved.len() - k,
    {
        targets.push(saved_link_target(&saved[k]));
        k += 1;
    }
    let ghost orig = aps@;
    let mut rest = aps;
    let mut out: Vec<AccessPoint> = Vec::new();
    while rest.len() > 0
        invariant
            out.len() + rest.len() == orig.len(),
            rest@ == orig.skip(out.len() as int),
            out@ == link_all(orig.take(out.len() as int), saved@),
            targets.len() == saved.len(),
            forall|j: int| 0 <= j < saved.len() ==> option_text(#[trigger] targets@[j]) == link_target(saved@[j]),
        decreases rest.len(),
    {
        let mut ap = rest.remove(0);
        let ghost i = out.len() as int;
        assert(ap == orig[i]);
        let mut found: Option<String> = None;
        let mut j: usize = 0;
        while j < targets.len()
            invariant
                j <= targets.len(),
                targets.len() == saved.len(),
                forall|m: int| 0 <= m < saved.len() ==> option_text(#[trigger] targets@[m]) == link_target(saved@[m]),
                found == last_link(ap.bssid@, saved@.take(j as int)),
            decreases targets.len() - j,
        {
            assert(saved@.take(j + 1).drop_last() =~= saved@.take(j as int));
            assert(saved@.take(j + 1).last() == saved@[j as int]);
            if let Some(t) = &targets[j] {
                assert(option_text(targets@[j as int]) == Some(t@));
                if *t == ap.bssid {
                    found = Some(saved[j].path.clone());
                }
            }
            j += 1;
        }
        assert(saved@.take(saved@.len() as int) =~= saved@);
        if let Some(p) = found {
            ap.setting_path = Some(p);
        }
        out.push(ap);
        proof {
            assert(rest@ =~= orig.skip(out.len() as int));
            assert(out@ =~= link_all(orig.take(out.len() as int), saved@));
        }
    }
    assert(orig.take(orig.len() as int) =~= orig);
    out
}

/// How a connection attempt ended.
#[derive(PartialEq, Eq, Structural, Debug, Clone, Copy)]
pub enum ConnectOutcome {
    Connected,
    /// The attempt failed for this reason; 7 means missing or wrong secrets.
    Failed(u32),
}

/// The end of a connection attempt that a device-state change reports:
/// `None` while the attempt is still under way.
pub open spec fn outcome_of(new_state: u32, reason: u32) -> Option<ConnectOutcome> {
    if new_state == DEVICE_ACTIVATED {
        Some(ConnectOutcome::Connected)
    } else if new_state == DEVICE_FAILED {
        Some(ConnectOutcome::Failed(reason))
    } else {
        None
    }
}

/// Reads a device-state change while a connection attempt waits for its end.
pub fn connect_outcome(new_state: u32, reason: u32) -> (r: Option<ConnectOutcome>)
    ensures
        r == outcome_of(new_state, reason),
{
    if new_state == DEVICE_ACTIVATED {
        Some(ConnectOutcome::Connected)
    } else if new_state == DEVICE_FAILED {
        Some(ConnectOutcome::Failed(reason))
    } else {
        None
    }
}

/// A connection profile to create and activate.
#[derive(Debug, Clone)]
pub struct NewConnection {
    /// The profile's name: the network name.
    pub id: String,
    pub uuid: String,
    /// The network name as bytes.
    pub ssid: Vec<u8>,
    pub hidden: bool,
    /// The hardware address to bind to; none for a hidden network.
    pub bssid: Option<Vec<u8>>,
    /// The WPA passphrase; only for a protected network.
    pub psk: Option<String>,
}

/// What to ask of the service to connect.
#[derive(Debug, Clone)]
pub enum ConnectRequest {
    /// Activate the saved connection at this path.
    Activate { settings_path: String },
    /// Create this connection and activate it.
    Create(NewConnection),
}

/// `c` is the profile for `target` with this password, hidden flag and UUID.
pub open spec fn describes(
    c: NewConnection,
    target: AccessPoint,
    password: Option<String>,
    hidden: bool,
    uuid: Seq<char>,
) -> bool {
    &&& c.id@ == target.ssid@
    &&& c.uuid@ == uuid
    &&& c.ssid@ == encode_utf8(target.ssid@)
    &&& c.hidden == hidden
    &&& if hidden {
        c.bssid is None
    } else {
        c.bssid is Some && c.bssid->0@ == bssid_bytes(target.bssid@)
    }
    &&& c.psk == if target.is_protected {
        password
    } else {
        None
    }
}

/// The profile for `target`, with the given UUID.
pub fn new_connection(target: &AccessPoint, password: Option<String>, hidden: bool, uuid: String) -> (r:
    NewConnection)
    ensures
        describes(r, *target, password, hidden, uuid@),
{
    let bssid = if hidden {
        None
    } else {
        Some(bssid_to_bytes(target.bssid.as_str()))
    };
    let psk = if target.is_protected {
        password
    } else {
        None
    };
    NewConnection {
        id: target.ssid.clone(),
        uuid,
        ssid: target.ssid.as_str().as_bytes_vec(),
        hidden,
        bssid,
        psk,
    }
}

/// Whether a connection attempt reuses the saved connection of `target`:
/// when no password came with it and it follows no failure.
pub open spec fn reuses_saved(target: AccessPoint, password: Option<String>, reason: u32) -> bool {
    password is None && reason == 0 && target.setting_path is Some
}

/// What to ask of the service to connect to `target`. A saved connection is
/// reused when no password came and no failure preceded; otherwise a new
/// profile is made, which a protected network cannot have without a
/// password (`None`).
pub fn connection_request(
    target: &AccessPoint,
    password: Option<String>,
    hidden: bool,
    reason: u32,
) -> (r: Option<ConnectRequest>)
    ensures
        reuses_saved(*target, password, reason) ==> r == Some(
            ConnectRequest::Activate { settings_path: target.setting_path->0 },
        ),
        !reuses_saved(*target, password, reason) && target.is_protected && password is None
            ==> r is None,
        !reuses_saved(*target, password, reason) && !(target.is_protected && password is None)
            ==> (r matches Some(ConnectRequest::Create(c)) && describes(
            c,
            *target,
            password,
            hidden,
            c.uuid@,
        ) && exists|b: Seq<u8>| b.len() == 16 && c.uuid@ == #[trigger] uuid_text(b)),
{
    if password.is_none() && reason == 0 {
        if let Some(p) = &target.setting_path {
            return Some(ConnectRequest::Activate { settings_path: p.clone() });
        }
    }
    if target.is_protected && password.is_none() {
        return None;
    }
    let uuid = generate_uuid();
    Some(ConnectRequest::Create(new_connection(target, password, hidden, uuid)))
}

/// The profile to delete once an attempt has ended: the one it created, if
/// the attempt failed, so that retries do not pile up profiles.
pub fn profile_to_delete(request: &ConnectRequest, config_path: String, outcome: ConnectOutcome) -> (r:
    Option<String>)
    ensures
        r == (if request is Create && outcome is Failed {
            Some(config_path)
        } else {
            None
        }),
{
    match (request, outcome) {
        (ConnectRequest::Create(_), ConnectOutcome::Failed(_)) => Some(config_path),
        _ => None,
    }
}

/// Whether a saved connection is a wireless one named `ssid`: those are
/// deleted when the user forgets that network.
pub fn is_wifi_profile_for(connection_type: &str, id: &str, ssid: &str) -> (r: bool)
    ensures
        r == (connection_type@ == WIRELESS_TYPE@ && id@ == ssid@),
{
    same_text(connection_type, WIRELESS_TYPE) && same_text(id, ssid)
}

} // verus!
