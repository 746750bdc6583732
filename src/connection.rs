use vstd::prelude::*;
use vstd::string::*;
use crate::iface::{
    iface_type_to_nm, is_controller_type, is_ovs_port, is_ovs_port_type, is_userspace_type, nm_type_spec,
    type_name_spec, BaseInterface, FamilyConfig, Interface, InterfaceType, NetworkState,
    ErrorKind, NmstateError, OvsPortConfig, VethConfig,
};
use crate::nm::{
    is_hyphenated_uuid, ov, same_profile, same_settings, uuid_random, uuid_v5_url, uuid_v5_url_of, BridgePortSetting, NmConnection,
    NmSettingConnection, NmSettingsConnectionFlag, OvsBridgeSetting, OvsIfaceSetting, VethSetting, WiredSetting,
};

verus! {

/// Whether an existing profile belongs to interface `name` of on-wire family
/// `t`; a link-peer profile also stands for a plain wired one.
pub open spec fn profile_matches(c: NmConnection, name: Seq<char>, t: Seq<char>) -> bool {
    c.iface_name_spec() == Some(name) && (c.iface_type_spec() == Some(t) || (t
        == "802-3-ethernet"@ && c.iface_type_spec() == Some("veth"@)))
}

pub open spec fn in_strings(v: Seq<String>, s: Seq<char>) -> bool {
    exists|k: int| 0 <= k < v.len() && v[k]@ == s
}

/// Whether the daemon reports the profile as active.
pub open spec fn profile_active(c: NmConnection, active: Seq<String>) -> bool {
    c.uuid_spec() matches Some(u) && in_strings(active, u)
}

/// The choice of the matcher: index `i` is a match, and it is either the
/// first active match, or the last match when none is active.
pub open spec fn is_preferred_match(
    exist: Seq<NmConnection>,
    name: Seq<char>,
    t: Seq<char>,
    active: Seq<String>,
    i: int,
) -> bool {
    &&& 0 <= i < exist.len()
    &&& profile_matches(exist[i], name, t)
    &&& if profile_active(exist[i], active) {
        forall|j: int| 0 <= j < i && profile_matches(exist[j], name, t) ==> !profile_active(exist[j], active)
    } else {
        &&& forall|j: int| 0 <= j < exist.len() && profile_matches(exist[j], name, t) ==> !profile_active(exist[j], active)
        &&& forall|j: int| i < j < exist.len() ==> !profile_matches(exist[j], name, t)
    }
}

/// The matcher's choice is unique.
pub proof fn lemma_preferred_match_unique(
    exist: Seq<NmConnection>,
    name: Seq<char>,
    t: Seq<char>,
    active: Seq<String>,
    i: int,
    j: int,
)
    requires
        is_preferred_match(exist, name, t, active, i),
        is_preferred_match(exist, name, t, active, j),
    ensures
        i == j,
{
}

fn contains_string(v: &[String], s: &String) -> (r: bool)
    ensures
        r == in_strings(v@, s@),
{
    let mut k: usize = 0;
    while k < v.len()
        invariant
            k <= v@.len(),
            forall|j: int| 0 <= j < k ==> v@[j]@ != s@,
        decreases v@.len() - k,
    {
        if v[k] == *s {
            return true;
        }
        k += 1;
    }
    false
}

/// Finds the existing profile to reuse for interface `iface_name` of family
/// `iface_type`, preferring one that is active.
pub fn get_exist_profile(
    exist_nm_conns: &[NmConnection],
    iface_name: &String,
    iface_type: &InterfaceType,
    nm_ac_uuids: &[String],
) -> (r: Option<usize>)
    ensures
        match nm_type_spec(*iface_type) {
            None => r is None,
            Some(t) => match r {
                Some(i) => is_preferred_match(exist_nm_conns@, iface_name@, t, nm_ac_uuids@, i as int),
                None => forall|j: int| 0 <= j < exist_nm_conns@.len() ==> !profile_matches(exist_nm_conns@[j], iface_name@, t),
            },
        },
{
    let nm_type = match iface_type_to_nm(iface_type) {
        Ok(t) => t,
        Err(_) => return None,
    };
    let wired = String::from_str("802-3-ethernet");
    let veth = String::from_str("veth");
    let ghost t = nm_type@;
    let ghost ex = exist_nm_conns@;
    let ghost ac = nm_ac_uuids@;
    let mut found: Option<usize> = None;
    let mut i: usize = 0;
    while i < exist_nm_conns.len()
        invariant
            i <= ex.len(),
            ex == exist_nm_conns@,
            ac == nm_ac_uuids@,
            t == nm_type@,
            nm_type_spec(*iface_type) == Some(t),
            wired@ == "802-3-ethernet"@,
            veth@ == "veth"@,
            forall|j: int| 0 <= j < i && profile_matches(ex[j], iface_name@, t) ==> !profile_active(ex[j], ac),
            match found {
                None => forall|j: int| 0 <= j < i ==> !profile_matches(ex[j], iface_name@, t),
                Some(f) => f < i && profile_matches(ex[f as int], iface_name@, t)
                    && forall|j: int| f < j < i ==> !profile_matches(ex[j], iface_name@, t),
            },
        decreases ex.len() - i,
    {
        let c = &exist_nm_conns[i];
        let name_ok = match c.iface_name() {
            Some(n) => *n == *iface_name,
            None => false,
        };
        let type_ok = match c.iface_type() {
            Some(x) => *x == nm_type || (nm_type == wired && *x == veth),
            None => false,
        };
        assert(c == ex[i as int]);
        assert((name_ok && type_ok) == profile_matches(ex[i as int], iface_name@, t));
        let active = match c.uuid() {
            Some(u) => contains_string(nm_ac_uuids, u),
            None => false,
        };
        assert(active == profile_active(ex[i as int], ac));
        if name_ok && type_ok {
            if active {
                return Some(i);
            }
            found = Some(i);
        }
        i += 1;
    }
    found
}


/// Display name given to a fresh profile of `iface`.
pub open spec fn fresh_conn_name(iface: Interface) -> Seq<char> {
    let n = iface.base.name@;
    match iface.base.iface_type {
        InterfaceType::OvsBridge => n + "-br"@,
        InterfaceType::OvsInterface => n + "-if"@,
        InterfaceType::Other(s) => if s@ == "ovs-port"@ { n + "-port"@ } else { n },
        _ => n,
    }
}

/// On-wire family of a fresh profile: a link with a peer is a link-peer pair.
pub open spec fn fresh_conn_type(iface: Interface) -> Option<Seq<char>> {
    if iface.has_veth() {
        Some("veth"@)
    } else {
        nm_type_spec(iface.base.iface_type)
    }
}

/// Identifier derived from the family and name in stable mode.
pub open spec fn stable_uuid_of(iface: Interface) -> Seq<char> {
    uuid_v5_url_of(type_name_spec(iface.base.iface_type) + "://"@ + iface.base.name@)
}

/// Controller family as stored: under a switch bridge the attachment point
/// is always its port object.
pub open spec fn stored_ctrl_type(ctrl_nm_type: Seq<char>, own: InterfaceType) -> Seq<char> {
    if ctrl_nm_type == "ovs-bridge"@ && !is_ovs_port_type(own) {
        "ovs-port"@
    } else {
        ctrl_nm_type
    }
}

/// The interface names a controller to attach to.
pub open spec fn attaches(iface: Interface) -> bool {
    iface.base.controller matches Some(c) && c@.len() > 0
}

pub open spec fn is_detach(iface: Interface) -> bool {
    iface.base.controller matches Some(c) && c@.len() == 0
}

/// When identity assignment fails: the family of a fresh profile, or a
/// declared controller family outside a detach, has no on-wire name.
pub open spec fn identity_fails(iface: Interface, has_identity: bool) -> bool {
    (!has_identity && nm_type_spec(iface.base.iface_type) is None) || (!is_detach(iface)
        && (iface.base.controller_type matches Some(ct) && nm_type_spec(ct) is None))
}

/// The identity `s` that assignment derives for `iface` from `prev`.
pub open spec fn identity_from(iface: Interface, prev: NmSettingConnection, s: NmSettingConnection) -> bool {
    let b = iface.base;
    &&& ov(s.iface_name) == Some(b.name@)
    &&& s.autoconnect == Some(true)
    &&& s.autoconnect_ports == (if is_controller_type(b.iface_type) { Some(true) } else { None })
    &&& s.id == prev.id && s.uuid == prev.uuid && s.iface_type == prev.iface_type
    &&& s.lldp == (match b.lldp { Some(l) => Some(l), None => prev.lldp })
    &&& if is_detach(iface) {
        s.controller is None && s.controller_type is None
    } else if attaches(iface) && b.controller_type is Some {
        ov(s.controller) == Some(b.controller.unwrap()@) && ov(s.controller_type) == Some(
            stored_ctrl_type(nm_type_spec(b.controller_type.unwrap()).unwrap(), b.iface_type))
    } else {
        s.controller == prev.controller && s.controller_type == prev.controller_type
    }
}

/// The fresh identity of `iface` that `s` starts from.
pub open spec fn fresh_identity(iface: Interface, stable_uuid: bool, s: NmSettingConnection) -> bool {
    &&& ov(s.id) == Some(fresh_conn_name(iface))
    &&& ov(s.iface_type) == fresh_conn_type(iface)
    &&& s.uuid matches Some(u) && u@.len() == 36 && is_hyphenated_uuid(u@, if stable_uuid { '5' } else { '4' })
    &&& stable_uuid ==> ov(s.uuid) == Some(stable_uuid_of(iface))
}

/// The empty identity record carrying only the fresh fields of `s`.
pub open spec fn fresh_start(s: NmSettingConnection) -> NmSettingConnection {
    NmSettingConnection {
        id: s.id,
        uuid: s.uuid,
        iface_type: s.iface_type,
        iface_name: None,
        controller: None,
        controller_type: None,
        autoconnect: None,
        autoconnect_ports: None,
        lldp: None,
    }
}

/// `p` carries the identity assigned to `iface` starting from `prev`, or
/// from a fresh identity when there is none.
pub open spec fn identity_of(iface: Interface, prev: Option<NmSettingConnection>, stable_uuid: bool, p: NmConnection) -> bool {
    p.connection matches Some(s) && match prev {
        Some(o) => identity_from(iface, o, s),
        None => fresh_identity(iface, stable_uuid, s) && identity_from(iface, fresh_start(s), s),
    }
}

fn stable_uuid(iface: &Interface) -> (r: String)
    ensures
        r@ == stable_uuid_of(*iface),
        r@.len() == 36,
        is_hyphenated_uuid(r@, '5'),
{
    let mut key = iface.base.iface_type.family_name();
    key.append("://");
    key.append(iface.base.name.as_str());
    uuid_v5_url(key.as_str())
}

fn fresh_name(iface: &Interface) -> (r: String)
    ensures
        r@ == fresh_conn_name(*iface),
{
    let mut n = iface.base.name.clone();
    match &iface.base.iface_type {
        InterfaceType::OvsBridge => n.append("-br"),
        InterfaceType::OvsInterface => n.append("-if"),
        InterfaceType::Other(_) => {
            if is_ovs_port(&iface.base.iface_type) {
                n.append("-port");
            }
        },
        _ => {},
    }
    n
}

/// Establishes or preserves the identity sub-record of `nm_conn` for `iface`;
/// on failure the profile is left unchanged.
pub fn gen_nm_conn_setting(iface: &Interface, nm_conn: &mut NmConnection, stable_uuid: bool) -> (r: Result<(), NmstateError>)
    ensures
        r is Err <==> identity_fails(*iface, old(nm_conn).connection is Some),
        r matches Err(e) ==> e.kind == ErrorKind::NotImplementedError && *final(nm_conn) == *old(nm_conn),
        r is Ok ==> same_settings(*final(nm_conn), *old(nm_conn)) && final(nm_conn).flags == old(nm_conn).flags
            && identity_of(*iface, old(nm_conn).connection, stable_uuid, *final(nm_conn)),
{
    let mut set = match &nm_conn.connection {
        Some(cur) => cur.copy(),
        None => {
            let mut fresh = NmSettingConnection::new();
            fresh.id = Some(fresh_name(iface));
            fresh.uuid = Some(if stable_uuid { self::stable_uuid(iface) } else { uuid_random() });
            let mut t = match iface_type_to_nm(&iface.base.iface_type) {
                Ok(t) => t,
                Err(e) => return Err(e),
            };
            if let FamilyConfig::Ethernet(Some(_)) = &iface.conf {
                t = String::from_str("veth");
            }
            fresh.iface_type = Some(t);
            fresh
        },
    };
    set.iface_name = Some(iface.base.name.clone());
    set.autoconnect = Some(true);
    set.autoconnect_ports = match iface.base.iface_type {
        InterfaceType::LinuxBridge | InterfaceType::Bond | InterfaceType::OvsBridge | InterfaceType::Vrf => Some(true),
        _ => None,
    };
    let detach = match &iface.base.controller {
        Some(c) => c.as_str().is_empty(),
        None => false,
    };
    if detach {
        set.controller = None;
        set.controller_type = None;
    } else if let Some(ct) = &iface.base.controller_type {
        let nm_ct = match iface_type_to_nm(ct) {
            Ok(t) => t,
            Err(e) => return Err(e),
        };
        if let Some(ctrl_name) = &iface.base.controller {
            set.controller = Some(ctrl_name.clone());
            let ovs_bridge = String::from_str("ovs-bridge");
            set.controller_type = if nm_ct == ovs_bridge && !is_ovs_port(&iface.base.iface_type) {
                Some(String::from_str("ovs-port"))
            } else {
                Some(nm_ct)
            };
        }
    }
    if let Some(l) = iface.base.lldp {
        set.lldp = Some(l);
    }
    nm_conn.connection = Some(set);
    Ok(())
}

fn plain_base(name: String, iface_type: InterfaceType) -> (r: BaseInterface)
    ensures
        r.name == name && r.iface_type == iface_type,
        r.controller is None && r.controller_type is None && r.lldp is None,
{
    BaseInterface {
        name,
        iface_type,
        controller: None,
        controller_type: None,
        ipv4: None,
        ipv6: None,
        lldp: None,
        mtu: None,
        ignore: false,
        up_exist_config: false,
    }
}

/// No setting group is filled but, possibly, the switch-port and link-peer ones.
pub open spec fn bare_groups(c: NmConnection) -> bool {
    &&& c.ipv4 is None && c.ipv6 is None && c.wired is None
    &&& c.bridge is None && c.bridge_port is None && c.bond is None
    &&& c.ovs_bridge is None && c.ovs_iface is None
    &&& c.vlan is None && c.vxlan is None && c.mac_vlan is None
    &&& c.vrf is None && c.infiniband is None
}

/// The switch-port profile of `port` under bridge `br`, built without an
/// existing profile.
pub open spec fn fresh_port_profile(port: OvsPortConfig, br: Seq<char>, stable_uuid: bool, c: NmConnection) -> bool {
    &&& c.connection matches Some(s)
    &&& ov(c.connection.unwrap().id) == Some(port.name@ + "-port"@)
    &&& ov(c.connection.unwrap().iface_type) == Some("ovs-port"@)
    &&& c.connection.unwrap().uuid matches Some(u) && u@.len() == 36
    &&& stable_uuid ==> ov(c.connection.unwrap().uuid) == Some(uuid_v5_url_of("ovs-port"@ + "://"@ + port.name@))
    &&& ov(c.connection.unwrap().iface_name) == Some(port.name@)
    &&& c.connection.unwrap().autoconnect == Some(true)
    &&& c.connection.unwrap().autoconnect_ports is None && c.connection.unwrap().lldp is None
    &&& br.len() > 0 ==> ov(c.connection.unwrap().controller) == Some(br) && ov(c.connection.unwrap().controller_type) == Some("ovs-bridge"@)
    &&& br.len() == 0 ==> c.connection.unwrap().controller is None && c.connection.unwrap().controller_type is None
    &&& bare_groups(c) && c.veth is None && c.ovs_port == Some(port) && c.flags@.len() == 0
}

/// The profile of link peer `peer` of `eth`, built without an existing
/// profile.
pub open spec fn fresh_peer_profile(peer: String, eth: String, stable_uuid: bool, c: NmConnection) -> bool {
    &&& c.connection matches Some(s)
    &&& ov(c.connection.unwrap().id) == Some(peer@)
    &&& ov(c.connection.unwrap().iface_type) == Some("veth"@)
    &&& c.connection.unwrap().uuid matches Some(u) && u@.len() == 36
    &&& stable_uuid ==> ov(c.connection.unwrap().uuid) == Some(uuid_v5_url_of("ethernet"@ + "://"@ + peer@))
    &&& ov(c.connection.unwrap().iface_name) == Some(peer@)
    &&& c.connection.unwrap().autoconnect == Some(true)
    &&& c.connection.unwrap().autoconnect_ports is None && c.connection.unwrap().lldp is None
    &&& c.connection.unwrap().controller is None && c.connection.unwrap().controller_type is None
    &&& bare_groups(c) && c.ovs_port is None && c.veth == Some(VethSetting { peer: eth }) && c.flags@.len() == 0
}

/// What holds of the switch-port profile of `port` under bridge `br_name`.
pub open spec fn port_profile_ok(port: OvsPortConfig, br_name: Seq<char>, c: NmConnection) -> bool {
    &&& c.iface_name_spec() == Some(port.name@)
    &&& c.ovs_port == Some(port)
    &&& c.connection matches Some(s) && s.autoconnect == Some(true)
    &&& br_name.len() > 0 ==> c.controller_spec() == Some(br_name) && c.controller_type_spec() == Some("ovs-bridge"@)
    &&& br_name.len() == 0 ==> c.controller_spec() is None && c.controller_type_spec() is None
}

/// Builds the switch-port profile of `port_conf` under switch bridge `br_name`,
/// reusing the identity of `exist_nm_conn` when given.
pub fn create_ovs_port_nm_conn(
    br_name: &String,
    port_conf: &OvsPortConfig,
    exist_nm_conn: Option<&NmConnection>,
    stable_uuid: bool,
) -> (r: Result<NmConnection, NmstateError>)
    ensures
        r matches Ok(c) && port_profile_ok(*port_conf, br_name@, c)
            && (exist_nm_conn is None ==> fresh_port_profile(*port_conf, br_name@, stable_uuid, c)) && match exist_nm_conn {
            Some(e) if e.connection is Some => {
                let (o, s) = (e.connection.unwrap(), c.connection.unwrap());
                s.id == o.id && s.uuid == o.uuid && s.iface_type == o.iface_type
            },
            _ => ov(c.connection.unwrap().id) == Some(port_conf.name@ + "-port"@)
                && c.iface_type_spec() == Some("ovs-port"@)
                && (stable_uuid ==> ov(c.connection.unwrap().uuid) == Some(uuid_v5_url_of(
                    "ovs-port"@ + "://"@ + port_conf.name@))),
        },
{
    let mut base = plain_base(port_conf.name.clone(), InterfaceType::Other(String::from_str("ovs-port")));
    base.controller = Some(br_name.clone());
    base.controller_type = Some(InterfaceType::OvsBridge);
    let iface = Interface { base, conf: FamilyConfig::Other };
    let mut nm_conn = match exist_nm_conn {
        Some(c) => c.copy(),
        None => NmConnection::new(),
    };
    gen_nm_conn_setting(&iface, &mut nm_conn, stable_uuid)?;
    nm_conn.ovs_port = Some(port_conf.copy());
    Ok(nm_conn)
}

/// Builds the profile of link peer `peer_name` of `eth_name`, reusing the
/// identity of a matching existing one.
pub fn create_veth_peer_profile_if_not_found(
    peer_name: &String,
    eth_name: &String,
    exist_nm_conns: &[NmConnection],
    stable_uuid: bool,
) -> (r: Result<NmConnection, NmstateError>)
    ensures
        r matches Ok(c) && c.iface_name_spec() == Some(peer_name@)
            && (c.veth matches Some(v) && v.peer@ == eth_name@)
            && (c.connection matches Some(s) && s.autoconnect == Some(true))
            && ((forall|j: int| 0 <= j < exist_nm_conns@.len() ==> !profile_matches(exist_nm_conns@[j], peer_name@, "802-3-ethernet"@))
                ==> c.iface_type_spec() == Some("veth"@) && ov(c.connection.unwrap().id) == Some(peer_name@)
                && fresh_peer_profile(*peer_name, *eth_name, stable_uuid, c))
            && (forall|i: int| is_preferred_match(exist_nm_conns@, peer_name@, "802-3-ethernet"@, Seq::empty(), i)
                && exist_nm_conns@[i].connection is Some ==> {
                let (o, s) = (exist_nm_conns@[i].connection.unwrap(), c.connection.unwrap());
                s.id == o.id && s.uuid == o.uuid && s.iface_type == o.iface_type
            }),
{
    let base = plain_base(peer_name.clone(), InterfaceType::Ethernet);
    let iface = Interface { base, conf: FamilyConfig::Ethernet(Some(VethConfig { peer: eth_name.clone() })) };
    let no_active: Vec<String> = Vec::new();
    let found = get_exist_profile(exist_nm_conns, peer_name, &InterfaceType::Ethernet, no_active.as_slice());
    assert(no_active@ == Seq::<String>::empty());
    proof {
        assert forall|i: int| is_preferred_match(exist_nm_conns@, peer_name@, "802-3-ethernet"@, Seq::empty(), i)
            implies found == Some(i as usize) by {
            if let Some(k) = found {
                lemma_preferred_match_unique(exist_nm_conns@, peer_name@, "802-3-ethernet"@, Seq::empty(), i, k as int);
            }
        }
    }
    let mut nm_conn = match found {
        Some(i) => exist_nm_conns[i].copy(),
        None => NmConnection::new(),
    };
    gen_nm_conn_setting(&iface, &mut nm_conn, stable_uuid)?;
    nm_conn.veth = Some(VethSetting { peer: eth_name.clone() });
    Ok(nm_conn)
}

/// A switch-port profile is implied for an interface that names a switch
/// bridge controller which is not part of this compilation.
pub open spec fn implicit_ovs_port(iface: Interface, ctrl_iface: Option<&Interface>) -> bool {
    iface.base.controller_type matches Some(InterfaceType::OvsBridge) && ctrl_iface is None && attaches(iface)
}

pub open spec fn ovs_ports(iface: Interface) -> Seq<OvsPortConfig> {
    match iface.conf {
        FamilyConfig::OvsBridge(b) => b.ports@,
        _ => Seq::empty(),
    }
}

pub open spec fn peer_needed(iface: Interface, veth_peer_exist_in_desire: bool) -> bool {
    iface.has_veth() && !veth_peer_exist_in_desire
}

/// Number of companion profiles that follow the primary one.
pub open spec fn companion_count(iface: Interface, ctrl_iface: Option<&Interface>, veth_peer_exist_in_desire: bool) -> int {
    ovs_ports(iface).len() + (if peer_needed(iface, veth_peer_exist_in_desire) { 1int } else { 0 }) + (
    if implicit_ovs_port(iface, ctrl_iface) { 1int } else { 0 })
}

pub open spec fn ctrl_is_bridge(ctrl_iface: Option<&Interface>) -> bool {
    ctrl_iface matches Some(c) && c.conf is LinuxBridge
}

/// The family-specific setting group that `iface` calls for, as filled in
/// before the controller cascade.
pub open spec fn family_group_set(iface: Interface, p: NmConnection) -> bool {
    match iface.conf {
        FamilyConfig::LinuxBridge(c) => p.bridge == Some(c),
        FamilyConfig::Bond(c) => p.bond == Some(c),
        FamilyConfig::OvsBridge(b) => p.ovs_bridge == Some(OvsBridgeSetting { stp_enabled: b.stp_enabled }),
        FamilyConfig::OvsInterface => p.ovs_iface == Some(OvsIfaceSetting { internal: true }),
        FamilyConfig::Vlan(Some(c)) => p.vlan == Some(c),
        FamilyConfig::Vxlan(Some(c)) => p.vxlan == Some(c),
        FamilyConfig::MacVlan(Some(c)) => p.mac_vlan == Some(c),
        FamilyConfig::MacVtap(Some(c)) => p.mac_vlan == Some(c),
        FamilyConfig::Vrf(Some(c)) => p.vrf == Some(c),
        FamilyConfig::InfiniBand(c) => p.infiniband == Some(c),
        FamilyConfig::Ethernet(Some(vc)) => p.veth matches Some(v) && v.peer@ == vc.peer@,
        _ => true,
    }
}

/// `p` with the family-specific setting group of `iface` filled in.
pub open spec fn with_family_group(iface: Interface, p: NmConnection) -> NmConnection {
    match iface.conf {
        FamilyConfig::LinuxBridge(c) => NmConnection { bridge: Some(c), ..p },
        FamilyConfig::Bond(c) => NmConnection { bond: Some(c), ..p },
        FamilyConfig::OvsBridge(b) => NmConnection { ovs_bridge: Some(OvsBridgeSetting { stp_enabled: b.stp_enabled }), ..p },
        FamilyConfig::OvsInterface => NmConnection { ovs_iface: Some(OvsIfaceSetting { internal: true }), ..p },
        FamilyConfig::Vlan(Some(c)) => NmConnection { vlan: Some(c), ..p },
        FamilyConfig::Vxlan(Some(c)) => NmConnection { vxlan: Some(c), ..p },
        FamilyConfig::MacVlan(Some(c)) => NmConnection { mac_vlan: Some(c), ..p },
        FamilyConfig::MacVtap(Some(c)) => NmConnection { mac_vlan: Some(c), ..p },
        FamilyConfig::Vrf(Some(c)) => NmConnection { vrf: Some(c), ..p },
        FamilyConfig::InfiniBand(c) => NmConnection { infiniband: Some(c), ..p },
        FamilyConfig::Ethernet(Some(vc)) => NmConnection { veth: Some(VethSetting { peer: vc.peer }), ..p },
        _ => p,
    }
}

/// Bridge-port group derived from a bridge controller, if one is supplied.
pub open spec fn bridge_port_from(ctrl_iface: Option<&Interface>) -> Option<BridgePortSetting> {
    match ctrl_iface {
        Some(c) => match c.conf {
            FamilyConfig::LinuxBridge(br) => Some(BridgePortSetting { vlan_filtering: br.vlan_filtering }),
            _ => None,
        },
        None => None,
    }
}

/// `p` after the controller cascade.
pub open spec fn cascaded(iface: Interface, ctrl_iface: Option<&Interface>, p: NmConnection) -> NmConnection {
    let keep_bp = if p.controller_type_spec() == Some("bridge"@) { p.bridge_port } else { None };
    NmConnection {
        bridge_port: if ctrl_is_bridge(ctrl_iface) { bridge_port_from(ctrl_iface) } else { keep_bp },
        ovs_iface: if p.controller_type_spec() == Some("ovs-port"@) && !is_detach(iface) { p.ovs_iface } else { None },
        ..p
    }
}

/// Every setting group of a primary profile compiled without an existing
/// profile to start from.
pub open spec fn fresh_groups(iface: Interface, ctrl_iface: Option<&Interface>, p: NmConnection) -> bool {
    &&& p.ovs_port is None
    &&& p.bridge == (match iface.conf { FamilyConfig::LinuxBridge(c) => Some(c), _ => None })
    &&& p.bond == (match iface.conf { FamilyConfig::Bond(c) => Some(c), _ => None })
    &&& p.ovs_bridge == (match iface.conf {
        FamilyConfig::OvsBridge(b) => Some(OvsBridgeSetting { stp_enabled: b.stp_enabled }),
        _ => None,
    })
    &&& p.ovs_iface == (if iface.conf is OvsInterface && p.controller_type_spec() == Some("ovs-port"@) && !is_detach(iface) {
        Some(OvsIfaceSetting { internal: true })
    } else {
        None
    })
    &&& p.vlan == (match iface.conf { FamilyConfig::Vlan(c) => c, _ => None })
    &&& p.vxlan == (match iface.conf { FamilyConfig::Vxlan(c) => c, _ => None })
    &&& p.mac_vlan == (match iface.conf { FamilyConfig::MacVlan(c) => c, FamilyConfig::MacVtap(c) => c, _ => None })
    &&& p.vrf == (match iface.conf { FamilyConfig::Vrf(c) => c, _ => None })
    &&& p.infiniband == (match iface.conf { FamilyConfig::InfiniBand(c) => Some(c), _ => None })
    &&& p.veth == (match iface.conf {
        FamilyConfig::Ethernet(Some(vc)) => Some(VethSetting { peer: vc.peer }),
        _ => None,
    })
    &&& p.wired == (if !(iface.base.iface_type is InfiniBand) && iface.base.mtu is Some {
        Some(WiredSetting { mtu: iface.base.mtu })
    } else {
        None
    })
    &&& p.bridge_port == bridge_port_from(ctrl_iface)
}

/// The setting groups of the primary profile `p` of `iface` after the
/// controller cascade.
pub open spec fn family_groups_ok(iface: Interface, p: NmConnection) -> bool {
    &&& !(iface.conf is OvsInterface) ==> family_group_set(iface, p)
    &&& (iface.conf is OvsInterface && p.controller_type_spec() == Some("ovs-port"@) && !is_detach(iface))
        ==> family_group_set(iface, p)
    &&& (!(iface.base.iface_type is InfiniBand) && iface.base.mtu is Some) ==> p.wired == Some(
        WiredSetting { mtu: iface.base.mtu })
}

/// What holds of the primary profile `p` compiled from `iface`.
pub open spec fn primary_ok(iface: Interface, ctrl_iface: Option<&Interface>, p: NmConnection) -> bool {
    let b = iface.base;
    &&& p.flags@.len() == 0
    &&& p.iface_name_spec() == Some(b.name@)
    &&& p.ipv4 == b.ipv4 && p.ipv6 == b.ipv6
    &&& family_groups_ok(iface, p)
    &&& ctrl_is_bridge(ctrl_iface) ==> p.bridge_port == bridge_port_from(ctrl_iface) && p.bridge_port is Some
    &&& !ctrl_is_bridge(ctrl_iface) && p.bridge_port is Some ==> p.controller_type_spec() == Some("bridge"@)
    &&& p.ovs_iface is Some ==> p.controller_type_spec() == Some("ovs-port"@) && !is_detach(iface)
    &&& is_detach(iface) ==> p.controller_spec() is None && p.controller_type_spec() is None
    &&& (attaches(iface) && b.controller_type is Some) ==> p.controller_spec() == Some(b.controller.unwrap()@)
        && p.controller_type_spec() == Some(stored_ctrl_type(nm_type_spec(b.controller_type.unwrap()).unwrap(), b.iface_type))
}

/// Some existing profile matches `iface`.
pub open spec fn has_match(exist: Seq<NmConnection>, iface: Interface, active: Seq<String>) -> bool {
    nm_type_spec(iface.base.iface_type) matches Some(t) && exists|i: int|
        is_preferred_match(exist, iface.base.name@, t, active, i)
}

/// Index of the existing profile that the matcher picks for `iface`.
pub open spec fn matched_index(exist: Seq<NmConnection>, iface: Interface, active: Seq<String>) -> int {
    choose|i: int| is_preferred_match(exist, iface.base.name@, nm_type_spec(iface.base.iface_type).unwrap(), active, i)
}

/// Identity record of the matched existing profile, if any.
pub open spec fn matched_identity(exist: Seq<NmConnection>, iface: Interface, active: Seq<String>) -> Option<NmSettingConnection> {
    if has_match(exist, iface, active) {
        exist[matched_index(exist, iface, active)].connection
    } else {
        None
    }
}

/// No existing profile is bound to link peer `peer` as a wired or peer link.
pub open spec fn peer_unbound(exist: Seq<NmConnection>, peer: Seq<char>) -> bool {
    forall|j: int| 0 <= j < exist.len() ==> !profile_matches(exist[j], peer, "802-3-ethernet"@)
}

/// What the compiler returns for an interface that is compiled as given.
pub open spec fn compiled_ok(
    iface: Interface,
    ctrl_iface: Option<&Interface>,
    exist: Seq<NmConnection>,
    active: Seq<String>,
    veth_peer_exist_in_desire: bool,
    v: Seq<NmConnection>,
) -> bool {
    let n = ovs_ports(iface).len() as int;
    &&& v.len() == 1 + companion_count(iface, ctrl_iface, veth_peer_exist_in_desire)
    &&& primary_ok(iface, ctrl_iface, v[0])
    &&& identity_of(iface, matched_identity(exist, iface, active), exist.len() == 0, v[0])
    &&& forall|k: int| 0 <= k < n ==> port_profile_ok(ovs_ports(iface)[k], iface.base.name@, #[trigger] v[1 + k])
        && v[1 + k].iface_type_spec() == Some("ovs-port"@)
    &&& peer_needed(iface, veth_peer_exist_in_desire) ==> (iface.conf matches FamilyConfig::Ethernet(Some(vc))
        && v[1 + n].iface_name_spec() == Some(vc.peer@) && (v[1 + n].veth matches Some(pv) && pv.peer@ == iface.base.name@)
        && (peer_unbound(exist, vc.peer@) ==> v[1 + n].iface_type_spec() == Some("veth"@)))
    &&& !has_match(exist, iface, active) ==> fresh_groups(iface, ctrl_iface, v[0])
    &&& exist.len() == 0 ==> forall|k: int| 0 <= k < n ==> fresh_port_profile(ovs_ports(iface)[k], iface.base.name@, true, #[trigger] v[1 + k])
    &&& (exist.len() == 0 && peer_needed(iface, veth_peer_exist_in_desire)) ==> (iface.conf matches FamilyConfig::Ethernet(Some(vc))
        && fresh_peer_profile(vc.peer, iface.base.name, true, v[1 + n]))
    &&& (exist.len() == 0 && implicit_ovs_port(iface, ctrl_iface)) ==> fresh_port_profile(
        OvsPortConfig { name: iface.base.name, vlan_tag: None }, iface.base.controller.unwrap()@, true, v.last())
    &&& implicit_ovs_port(iface, ctrl_iface) ==> v.last().iface_name_spec() == Some(iface.base.name@)
        && v.last().iface_type_spec() == Some("ovs-port"@)
        && port_profile_ok(OvsPortConfig { name: iface.base.name, vlan_tag: None }, iface.base.controller.unwrap()@, v.last())
}

/// Compilation as given fails exactly when identity assignment does, with
/// an unsupported-feature error.
pub open spec fn compile_outcome(iface: Interface, r: Result<Vec<NmConnection>, NmstateError>) -> bool {
    &&& r is Err <==> identity_fails(iface, false)
    &&& r matches Err(e) ==> e.kind == ErrorKind::NotImplementedError
}

/// The primary profile carries the identity that stable mode derives for a
/// fresh profile of `iface`.
pub open spec fn stable_identity(iface: Interface, p: NmConnection) -> bool {
    p.connection matches Some(s) && fresh_identity(iface, true, s)
}

/// No kernel interface named `name` is live.
pub open spec fn no_live_iface(cur: NetworkState, name: Seq<char>) -> bool {
    forall|j: int| 0 <= j < cur.interfaces@.len() ==> !(cur.interfaces@[j].base.name@ == name
        && !is_userspace_type(cur.interfaces@[j].base.iface_type))
}

/// Outcome for an interface that asks to keep its current state while no
/// live interface stands behind it: the matched profile is kept alone and
/// unchanged, else the interface is compiled as given.
pub open spec fn keep_current_outcome(
    iface: Interface,
    ctrl_iface: Option<&Interface>,
    exist: Seq<NmConnection>,
    active: Seq<String>,
    veth_peer_exist_in_desire: bool,
    r: Result<Vec<NmConnection>, NmstateError>,
) -> bool {
    if has_match(exist, iface, active) {
        r matches Ok(v) && v@.len() == 1 && same_profile(v@[0], exist[matched_index(exist, iface, active)])
    } else {
        compile_outcome(iface, r) && (r is Ok ==> compiled_ok(iface, ctrl_iface, exist, active, veth_peer_exist_in_desire, r->Ok_0@))
    }
}

/// Index `k` is the first kernel interface named `name` in the live state.
pub open spec fn is_first_live(cur: NetworkState, name: Seq<char>, k: int) -> bool {
    &&& 0 <= k < cur.interfaces@.len()
    &&& cur.interfaces@[k].base.name@ == name && !is_userspace_type(cur.interfaces@[k].base.iface_type)
    &&& forall|j: int| 0 <= j < k ==> !(cur.interfaces@[j].base.name@ == name
        && !is_userspace_type(cur.interfaces@[j].base.iface_type))
}

/// The live interface named `name`.
pub open spec fn live_iface(cur: NetworkState, name: Seq<char>) -> Interface {
    cur.interfaces@[choose|k: int| is_first_live(cur, name, k)]
}

/// What a live interface is compiled as when an external profile is made
/// persistent: a wired link drops its peer and is a plain wired link.
pub open spec fn persisted_iface(live: Interface) -> Interface {
    match live.conf {
        FamilyConfig::Ethernet(_) => Interface {
            base: BaseInterface { iface_type: InterfaceType::Ethernet, ..live.base },
            conf: FamilyConfig::Ethernet(None),
        },
        _ => live,
    }
}

/// The matched existing profile is flagged as externally managed.
pub open spec fn matched_external(exist: Seq<NmConnection>, iface: Interface, active: Seq<String>) -> bool {
    has_match(exist, iface, active) && exist[matched_index(exist, iface, active)].flags@.contains(
        NmSettingsConnectionFlag::External)
}

/// Outcome for an interface that asks to keep its current state while a
/// live kernel interface stands behind it: an external profile is made
/// persistent from the live state, a non-external one is kept alone and
/// unchanged, and an unmanaged live interface becomes managed.
pub open spec fn promote_outcome(
    iface: Interface,
    ctrl_iface: Option<&Interface>,
    exist: Seq<NmConnection>,
    active: Seq<String>,
    veth_peer_exist_in_desire: bool,
    cur: NetworkState,
    r: Result<Vec<NmConnection>, NmstateError>,
) -> bool {
    let live = live_iface(cur, iface.base.name@);
    if matched_external(exist, iface, active) {
        let sub = persisted_iface(live);
        compile_outcome(sub, r) && (r is Ok ==> compiled_ok(sub, ctrl_iface, exist, active, veth_peer_exist_in_desire, r->Ok_0@))
    } else if has_match(exist, iface, active) {
        r matches Ok(v) && v@.len() == 1 && same_profile(v@[0], exist[matched_index(exist, iface, active)])
    } else if live.base.ignore {
        compile_outcome(live, r) && (r is Ok ==> compiled_ok(live, ctrl_iface, exist, active, veth_peer_exist_in_desire, r->Ok_0@))
    } else {
        compile_outcome(iface, r) && (r is Ok ==> compiled_ok(iface, ctrl_iface, exist, active, veth_peer_exist_in_desire, r->Ok_0@))
    }
}

/// The matcher's result for `iface`, as the compiler needs it.
pub open spec fn is_match_result(exist: Seq<NmConnection>, iface: Interface, active: Seq<String>, m: Option<usize>) -> bool {
    match m {
        Some(k) => has_match(exist, iface, active) && matched_index(exist, iface, active) == k as int,
        None => !has_match(exist, iface, active),
    }
}

proof fn lemma_first_live_unique(cur: NetworkState, name: Seq<char>, k: int)
    requires
        is_first_live(cur, name, k),
    ensures
        live_iface(cur, name) == cur.interfaces@[k],
{
    let c = choose|i: int| is_first_live(cur, name, i);
    assert(is_first_live(cur, name, c));
    if c < k {
        assert(!(cur.interfaces@[c].base.name@ == name && !is_userspace_type(cur.interfaces@[c].base.iface_type)));
    } else if k < c {
        assert(!(cur.interfaces@[k].base.name@ == name && !is_userspace_type(cur.interfaces@[k].base.iface_type)));
    }
}

fn find_own_profile(iface: &Interface, exist_nm_conns: &[NmConnection], nm_ac_uuids: &[String]) -> (r: Option<usize>)
    ensures
        is_match_result(exist_nm_conns@, *iface, nm_ac_uuids@, r),
        r matches Some(k) ==> k < exist_nm_conns@.len(),
{
    let r = get_exist_profile(exist_nm_conns, &iface.base.name, &iface.base.iface_type, nm_ac_uuids);
    proof {
        if let Some(k) = r {
            let t = nm_type_spec(iface.base.iface_type).unwrap();
            assert(has_match(exist_nm_conns@, *iface, nm_ac_uuids@));
            lemma_preferred_match_unique(exist_nm_conns@, iface.base.name@, t, nm_ac_uuids@, k as int,
                matched_index(exist_nm_conns@, *iface, nm_ac_uuids@));
        }
    }
    r
}

/// Compiles one desired interface into its ordered list of profiles, the
/// primary profile first.
pub fn iface_to_nm_connections(
    iface: &Interface,
    ctrl_iface: Option<&Interface>,
    exist_nm_conns: &[NmConnection],
    nm_ac_uuids: &[String],
    veth_peer_exist_in_desire: bool,
    cur_net_state: &NetworkState,
) -> (r: Result<Vec<NmConnection>, NmstateError>)
    ensures
        r matches Ok(v) ==> v@.len() >= 1,
        !iface.base.up_exist_config ==> compile_outcome(*iface, r),
        !iface.base.up_exist_config && r is Ok ==> compiled_ok(*iface, ctrl_iface, exist_nm_conns@, nm_ac_uuids@, veth_peer_exist_in_desire, r->Ok_0@),
        !iface.base.up_exist_config && r is Ok && exist_nm_conns@.len() == 0 ==> stable_identity(*iface, r->Ok_0@[0]),
        iface.base.up_exist_config && no_live_iface(*cur_net_state, iface.base.name@) ==> keep_current_outcome(
            *iface, ctrl_iface, exist_nm_conns@, nm_ac_uuids@, veth_peer_exist_in_desire, r),
        iface.base.up_exist_config && is_userspace_type(iface.base.iface_type) ==> keep_current_outcome(
            *iface, ctrl_iface, exist_nm_conns@, nm_ac_uuids@, veth_peer_exist_in_desire, r),
        iface.base.up_exist_config && !is_userspace_type(iface.base.iface_type) && !no_live_iface(*cur_net_state, iface.base.name@)
            ==> promote_outcome(*iface, ctrl_iface, exist_nm_conns@, nm_ac_uuids@, veth_peer_exist_in_desire, *cur_net_state, r),
{
    compile(iface, ctrl_iface, exist_nm_conns, nm_ac_uuids, veth_peer_exist_in_desire, cur_net_state, true)
}

/// The compiler; `promote` allows the one level of re-entry that converts
/// an external or unmanaged interface from its live state.
fn compile(
    iface: &Interface,
    ctrl_iface: Option<&Interface>,
    exist_nm_conns: &[NmConnection],
    nm_ac_uuids: &[String],
    veth_peer_exist_in_desire: bool,
    cur_net_state: &NetworkState,
    promote: bool,
) -> (r: Result<Vec<NmConnection>, NmstateError>)
    ensures
        r matches Ok(v) ==> v@.len() >= 1,
        !(promote && iface.base.up_exist_config) ==> compile_outcome(*iface, r),
        !(promote && iface.base.up_exist_config) && r is Ok ==> compiled_ok(*iface, ctrl_iface, exist_nm_conns@, nm_ac_uuids@, veth_peer_exist_in_desire, r->Ok_0@),
        promote && iface.base.up_exist_config && no_live_iface(*cur_net_state, iface.base.name@) ==> keep_current_outcome(
            *iface, ctrl_iface, exist_nm_conns@, nm_ac_uuids@, veth_peer_exist_in_desire, r),
        promote && iface.base.up_exist_config && is_userspace_type(iface.base.iface_type) ==> keep_current_outcome(
            *iface, ctrl_iface, exist_nm_conns@, nm_ac_uuids@, veth_peer_exist_in_desire, r),
        promote && iface.base.up_exist_config && !is_userspace_type(iface.base.iface_type) && !no_live_iface(*cur_net_state, iface.base.name@)
            ==> promote_outcome(*iface, ctrl_iface, exist_nm_conns@, nm_ac_uuids@, veth_peer_exist_in_desire, *cur_net_state, r),
    decreases (if promote { 1int } else { 0int }),
{
    let base = &iface.base;
    let exist = find_own_profile(iface, exist_nm_conns, nm_ac_uuids);
    let userspace = match base.iface_type {
        InterfaceType::OvsBridge | InterfaceType::Other(_) => true,
        _ => false,
    };
    if promote && base.up_exist_config {
        if let Some(idx) = exist {
            if !userspace && exist_nm_conns[idx].is_external() {
                if let Some(k) = cur_net_state.get_kernel_iface_with_route(&base.name) {
                    proof { lemma_first_live_unique(*cur_net_state, base.name@, k as int); }
                    let cur = &cur_net_state.interfaces[k];
                    if let FamilyConfig::Ethernet(_) = &cur.conf {
                        let mut b = cur.base.copy();
                        b.iface_type = InterfaceType::Ethernet;
                        let sub = Interface { base: b, conf: FamilyConfig::Ethernet(None) };
                        return compile(&sub, ctrl_iface, exist_nm_conns, nm_ac_uuids, veth_peer_exist_in_desire, cur_net_state, false);
                    }
                    return compile(cur, ctrl_iface, exist_nm_conns, nm_ac_uuids, veth_peer_exist_in_desire, cur_net_state, false);
                }
            }
            return Ok(vec![exist_nm_conns[idx].copy()]);
        } else if !userspace {
            if let Some(k) = cur_net_state.get_kernel_iface_with_route(&base.name) {
                proof { lemma_first_live_unique(*cur_net_state, base.name@, k as int); }
                let cur = &cur_net_state.interfaces[k];
                if cur.base.ignore {
                    return compile(cur, ctrl_iface, exist_nm_conns, nm_ac_uuids, veth_peer_exist_in_desire, cur_net_state, false);
                }
            }
        }
    }
    compile_as_given(iface, ctrl_iface, exist_nm_conns, nm_ac_uuids, veth_peer_exist_in_desire, exist)
}

/// Fills the family-specific setting group of `nm_conn` and appends the
/// switch-port and link-peer companions that the family implies.
fn gen_family_settings(
    iface: &Interface,
    nm_conn: &mut NmConnection,
    ret: &mut Vec<NmConnection>,
    exist_nm_conns: &[NmConnection],
    nm_ac_uuids: &[String],
    veth_peer_exist_in_desire: bool,
    stable_uuid: bool,
) -> (r: Result<(), NmstateError>)
    requires
        old(ret)@.len() == 0,
    ensures
        r is Ok,
        *final(nm_conn) == with_family_group(*iface, *old(nm_conn)),
        final(nm_conn).connection == old(nm_conn).connection,
        final(nm_conn).ipv4 == old(nm_conn).ipv4 && final(nm_conn).ipv6 == old(nm_conn).ipv6,
        final(nm_conn).wired == old(nm_conn).wired,
        final(nm_conn).flags == old(nm_conn).flags,
        final(nm_conn).bridge_port == old(nm_conn).bridge_port,
        !(iface.conf is OvsInterface) ==> final(nm_conn).ovs_iface == old(nm_conn).ovs_iface,
        family_group_set(*iface, *final(nm_conn)),
        final(ret)@.len() == ovs_ports(*iface).len() + (if peer_needed(*iface, veth_peer_exist_in_desire) { 1int } else { 0 }),
        forall|k: int| 0 <= k < ovs_ports(*iface).len() ==> port_profile_ok(ovs_ports(*iface)[k], iface.base.name@, #[trigger] final(ret)@[k])
            && final(ret)@[k].iface_type_spec() == Some("ovs-port"@),
        exist_nm_conns@.len() == 0 ==> forall|k: int| 0 <= k < ovs_ports(*iface).len() ==> fresh_port_profile(
            ovs_ports(*iface)[k], iface.base.name@, stable_uuid, #[trigger] final(ret)@[k]),
        (exist_nm_conns@.len() == 0 && peer_needed(*iface, veth_peer_exist_in_desire)) ==> (iface.conf matches FamilyConfig::Ethernet(Some(vc))
            && fresh_peer_profile(vc.peer, iface.base.name, stable_uuid, final(ret)@[ovs_ports(*iface).len() as int])),
        peer_needed(*iface, veth_peer_exist_in_desire) ==> (iface.conf matches FamilyConfig::Ethernet(Some(vc))
            && final(ret)@[ovs_ports(*iface).len() as int].iface_name_spec() == Some(vc.peer@)
            && (final(ret)@[ovs_ports(*iface).len() as int].veth matches Some(pv) && pv.peer@ == iface.base.name@)
            && (peer_unbound(exist_nm_conns@, vc.peer@) ==> final(ret)@[ovs_ports(*iface).len() as int].iface_type_spec() == Some("veth"@))),
{
    let base = &iface.base;
    match &iface.conf {
        FamilyConfig::OvsBridge(br) => {
            nm_conn.ovs_bridge = Some(OvsBridgeSetting { stp_enabled: br.stp_enabled });
            let ovs_port_type = InterfaceType::Other(String::from_str("ovs-port"));
            proof {
                reveal_strlit("ovs-port");
                reveal_strlit("802-3-ethernet");
                assert("ovs-port"@ != "802-3-ethernet"@) by {
                    assert("ovs-port"@.len() != "802-3-ethernet"@.len());
                }
            }
            let mut k: usize = 0;
            while k < br.ports.len()
                invariant
                    k <= br.ports@.len(),
                    ret@.len() == k,
                    iface.conf == FamilyConfig::OvsBridge(*br),
                    nm_type_spec(ovs_port_type) == Some("ovs-port"@),
                    "ovs-port"@ != "802-3-ethernet"@,
                    forall|j: int| 0 <= j < k ==> port_profile_ok(br.ports@[j], iface.base.name@, #[trigger] ret@[j])
                        && ret@[j].iface_type_spec() == Some("ovs-port"@),
                    exist_nm_conns@.len() == 0 ==> forall|j: int| 0 <= j < k ==> fresh_port_profile(
                        br.ports@[j], iface.base.name@, stable_uuid, #[trigger] ret@[j]),
                decreases br.ports@.len() - k,
            {
                let port = &br.ports[k];
                let found = get_exist_profile(exist_nm_conns, &port.name, &ovs_port_type, nm_ac_uuids);
                let exist_port = match found {
                    Some(i) => Some(&exist_nm_conns[i]),
                    None => None,
                };
                let c = create_ovs_port_nm_conn(&iface.base.name, port, exist_port, stable_uuid)?;
                proof {
                    if let Some(i) = found {
                        assert(profile_matches(exist_nm_conns@[i as int], port.name@, "ovs-port"@));
                        assert(exist_nm_conns@[i as int].iface_type_spec() == Some("ovs-port"@));
                    }
                }
                let ghost prev = ret@;
                ret.push(c);
                assert forall|j: int| 0 <= j < k + 1 implies (port_profile_ok(br.ports@[j], iface.base.name@, #[trigger] ret@[j])
                    && ret@[j].iface_type_spec() == Some("ovs-port"@)) by {
                    if j < k {
                        assert(ret@[j] == prev[j]);
                    }
                }
                assert(exist_nm_conns@.len() == 0 ==> forall|j: int| 0 <= j < k + 1 ==> fresh_port_profile(
                    br.ports@[j], iface.base.name@, stable_uuid, #[trigger] ret@[j])) by {
                    if exist_nm_conns@.len() == 0 {
                        assert forall|j: int| 0 <= j < k + 1 implies fresh_port_profile(
                            br.ports@[j], iface.base.name@, stable_uuid, #[trigger] ret@[j]) by {
                            if j < k {
                                assert(ret@[j] == prev[j]);
                            }
                        }
                    }
                }
                k += 1;
            }
        },
        FamilyConfig::LinuxBridge(c) => {
            nm_conn.bridge = Some(*c);
        },
        FamilyConfig::Bond(c) => {
            nm_conn.bond = Some(*c);
        },
        FamilyConfig::OvsInterface => {
            nm_conn.ovs_iface = Some(OvsIfaceSetting { internal: true });
        },
        FamilyConfig::Vlan(c) => {
            if let Some(c) = c {
                nm_conn.vlan = Some(c.copy());
            }
        },
        FamilyConfig::Vxlan(c) => {
            if let Some(c) = c {
                nm_conn.vxlan = Some(c.copy());
            }
        },
        FamilyConfig::Ethernet(veth) => {
            if let Some(vc) = veth {
                nm_conn.veth = Some(VethSetting { peer: vc.peer.clone() });
                if !veth_peer_exist_in_desire {
                    let c = create_veth_peer_profile_if_not_found(&vc.peer, &base.name, exist_nm_conns, stable_uuid)?;
                    ret.push(c);
                }
            }
        },
        FamilyConfig::MacVlan(c) | FamilyConfig::MacVtap(c) => {
            if let Some(c) = c {
                nm_conn.mac_vlan = Some(c.copy());
            }
        },
        FamilyConfig::Vrf(c) => {
            if let Some(c) = c {
                nm_conn.vrf = Some(*c);
            }
        },
        FamilyConfig::InfiniBand(c) => {
            nm_conn.infiniband = Some(*c);
        },
        FamilyConfig::Other => {},
    }
    Ok(())
}

/// Drops controller setting groups that the profile's controller family
/// does not call for, and derives the bridge-port group from a bridge
/// controller.
fn cascade_controller_settings(iface: &Interface, ctrl_iface: Option<&Interface>, nm_conn: &mut NmConnection)
    ensures
        final(nm_conn).connection == old(nm_conn).connection,
        final(nm_conn).ipv4 == old(nm_conn).ipv4 && final(nm_conn).ipv6 == old(nm_conn).ipv6,
        final(nm_conn).wired == old(nm_conn).wired && final(nm_conn).bridge == old(nm_conn).bridge,
        final(nm_conn).bond == old(nm_conn).bond && final(nm_conn).ovs_bridge == old(nm_conn).ovs_bridge,
        final(nm_conn).ovs_port == old(nm_conn).ovs_port && final(nm_conn).vlan == old(nm_conn).vlan,
        final(nm_conn).vxlan == old(nm_conn).vxlan && final(nm_conn).mac_vlan == old(nm_conn).mac_vlan,
        final(nm_conn).vrf == old(nm_conn).vrf && final(nm_conn).infiniband == old(nm_conn).infiniband,
        final(nm_conn).flags == old(nm_conn).flags,
        final(nm_conn).veth == old(nm_conn).veth,
        ctrl_is_bridge(ctrl_iface) ==> final(nm_conn).bridge_port is Some,
        !ctrl_is_bridge(ctrl_iface) && final(nm_conn).bridge_port is Some ==> final(nm_conn).controller_type_spec() == Some("bridge"@),
        final(nm_conn).ovs_iface is Some ==> final(nm_conn).controller_type_spec() == Some("ovs-port"@) && !is_detach(*iface),
        (old(nm_conn).controller_type_spec() == Some("ovs-port"@) && !is_detach(*iface)) ==> final(nm_conn).ovs_iface == old(nm_conn).ovs_iface,
        *final(nm_conn) == cascaded(*iface, ctrl_iface, *old(nm_conn)),
{
    let bridge = String::from_str("bridge");
    let ovs_port = String::from_str("ovs-port");
    let ctrl_is_br = match nm_conn.controller_type() {
        Some(t) => *t == bridge,
        None => false,
    };
    let ctrl_is_ovs_port = match nm_conn.controller_type() {
        Some(t) => *t == ovs_port,
        None => false,
    };
    if !ctrl_is_br {
        nm_conn.bridge_port = None;
    }
    if !ctrl_is_ovs_port {
        nm_conn.ovs_iface = None;
    }
    if let Some(c) = ctrl_iface {
        if let FamilyConfig::LinuxBridge(br) = &c.conf {
            nm_conn.bridge_port = Some(BridgePortSetting { vlan_filtering: br.vlan_filtering });
        }
    }
    let detach = match &iface.base.controller {
        Some(c) => c.as_str().is_empty(),
        None => false,
    };
    if detach {
        nm_conn.ovs_iface = None;
    }
}

/// Compiles `iface` as given, reusing the identity of the existing profile
/// at `exist`.
#[verifier::rlimit(60)]
fn compile_as_given(
    iface: &Interface,
    ctrl_iface: Option<&Interface>,
    exist_nm_conns: &[NmConnection],
    nm_ac_uuids: &[String],
    veth_peer_exist_in_desire: bool,
    exist: Option<usize>,
) -> (r: Result<Vec<NmConnection>, NmstateError>)
    requires
        is_match_result(exist_nm_conns@, *iface, nm_ac_uuids@, exist),
        exist matches Some(i) ==> i < exist_nm_conns@.len(),
    ensures
        r matches Ok(v) ==> v@.len() >= 1,
        compile_outcome(*iface, r),
        r is Ok ==> compiled_ok(*iface, ctrl_iface, exist_nm_conns@, nm_ac_uuids@, veth_peer_exist_in_desire, r->Ok_0@),
{
    let base = &iface.base;
    let mut ret: Vec<NmConnection> = Vec::new();
    let mut nm_conn = match exist {
        Some(i) => exist_nm_conns[i].copy(),
        None => NmConnection::new(),
    };
    nm_conn.flags = Vec::new();
    let stable_uuid = exist_nm_conns.len() == 0;
    proof {
        if exist is None && nm_type_spec(iface.base.iface_type) is Some {
            assert(!has_match(exist_nm_conns@, *iface, nm_ac_uuids@));
        }
    }

    match gen_nm_conn_setting(iface, &mut nm_conn, stable_uuid) {
        Ok(()) => {},
        Err(e) => return Err(e),
    }
    let ghost primary_identity = nm_conn.connection;
    nm_conn.ipv4 = base.ipv4;
    nm_conn.ipv6 = base.ipv6;
    if !matches!(base.iface_type, InterfaceType::InfiniBand) {
        if let Some(mtu) = base.mtu {
            nm_conn.wired = Some(WiredSetting { mtu: Some(mtu) });
        }
    }
    gen_family_settings(iface, &mut nm_conn, &mut ret, exist_nm_conns, nm_ac_uuids, veth_peer_exist_in_desire, stable_uuid)?;
    cascade_controller_settings(iface, ctrl_iface, &mut nm_conn);

    if matches!(base.controller_type, Some(InterfaceType::OvsBridge)) && ctrl_iface.is_none() {
        if let Some(ctrl_name) = &base.controller {
            if !ctrl_name.as_str().is_empty() {
            let port = OvsPortConfig { name: base.name.clone(), vlan_tag: None };
            let c = create_ovs_port_nm_conn(ctrl_name, &port, None, stable_uuid)?;
            ret.push(c);
            }
        }
    }

    ret.insert(0, nm_conn);
    Ok(ret)
}

} // verus!
