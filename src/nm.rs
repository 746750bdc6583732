use vstd::prelude::*;
use crate::iface::{
    BondConfig, BridgeConfig, InfiniBandConfig, IpConfig, MacVlanConfig, OvsPortConfig,
    VlanConfig, VrfConfig, VxlanConfig,
};

verus! {

/// Runtime flags that the daemon reports on a profile.
#[derive(Clone, Copy, Debug, PartialEq, Eq, Structural)]
pub enum NmSettingsConnectionFlag {
    Unsaved,
    NmGenerated,
    Volatile,
    External,
}

/// Identity sub-record of a profile.
#[derive(Clone, Debug)]
pub struct NmSettingConnection {
    pub id: Option<String>,
    pub uuid: Option<String>,
    pub iface_type: Option<String>,
    pub iface_name: Option<String>,
    pub controller: Option<String>,
    pub controller_type: Option<String>,
    pub autoconnect: Option<bool>,
    pub autoconnect_ports: Option<bool>,
    pub lldp: Option<bool>,
}

pub fn copy_opt_string(o: &Option<String>) -> (r: Option<String>)
    ensures
        r == *o,
{
    match o {
        Some(s) => Some(s.clone()),
        None => None,
    }
}

impl NmSettingConnection {
    pub fn new() -> (r: NmSettingConnection)
        ensures
            r.id is None && r.uuid is None && r.iface_type is None && r.iface_name is None,
            r.controller is None && r.controller_type is None,
            r.autoconnect is None && r.autoconnect_ports is None && r.lldp is None,
    {
        NmSettingConnection {
            id: None,
            uuid: None,
            iface_type: None,
            iface_name: None,
            controller: None,
            controller_type: None,
            autoconnect: None,
            autoconnect_ports: None,
            lldp: None,
        }
    }

    pub fn copy(&self) -> (r: NmSettingConnection)
        ensures
            r == *self,
    {
        NmSettingConnection {
            id: copy_opt_string(&self.id),
            uuid: copy_opt_string(&self.uuid),
            iface_type: copy_opt_string(&self.iface_type),
            iface_name: copy_opt_string(&self.iface_name),
            controller: copy_opt_string(&self.controller),
            controller_type: copy_opt_string(&self.controller_type),
            autoconnect: self.autoconnect,
            autoconnect_ports: self.autoconnect_ports,
            lldp: self.lldp,
        }
    }
}

#[derive(Clone, Copy, Debug, PartialEq, Eq, Structural)]
pub struct WiredSetting {
    pub mtu: Option<u64>,
}

/// Bridge-port settings derived from the controlling bridge.
#[derive(Clone, Copy, Debug, PartialEq, Eq, Structural)]
pub struct BridgePortSetting {
    pub vlan_filtering: bool,
}

#[derive(Clone, Copy, Debug, PartialEq, Eq, Structural)]
pub struct OvsBridgeSetting {
    pub stp_enabled: bool,
}

#[derive(Clone, Copy, Debug, PartialEq, Eq, Structural)]
pub struct OvsIfaceSetting {
    pub internal: bool,
}

#[derive(Clone, Debug)]
pub struct VethSetting {
    pub peer: String,
}

/// A persistent connection profile of the daemon.
#[derive(Clone, Debug)]
pub struct NmConnection {
    pub connection: Option<NmSettingConnection>,
    pub ipv4: Option<IpConfig>,
    pub ipv6: Option<IpConfig>,
    pub wired: Option<WiredSetting>,
    pub bridge: Option<BridgeConfig>,
    pub bridge_port: Option<BridgePortSetting>,
    pub bond: Option<BondConfig>,
    pub ovs_bridge: Option<OvsBridgeSetting>,
    pub ovs_port: Option<OvsPortConfig>,
    pub ovs_iface: Option<OvsIfaceSetting>,
    pub vlan: Option<VlanConfig>,
    pub vxlan: Option<VxlanConfig>,
    pub mac_vlan: Option<MacVlanConfig>,
    pub veth: Option<VethSetting>,
    pub vrf: Option<VrfConfig>,
    pub infiniband: Option<InfiniBandConfig>,
    pub flags: Vec<NmSettingsConnectionFlag>,
}

/// The two profiles agree on every setting group.
pub open spec fn same_settings(a: NmConnection, b: NmConnection) -> bool {
    &&& a.ipv4 == b.ipv4 && a.ipv6 == b.ipv6 && a.wired == b.wired
    &&& a.bridge == b.bridge && a.bridge_port == b.bridge_port && a.bond == b.bond
    &&& a.ovs_bridge == b.ovs_bridge && a.ovs_port == b.ovs_port && a.ovs_iface == b.ovs_iface
    &&& a.vlan == b.vlan && a.vxlan == b.vxlan && a.mac_vlan == b.mac_vlan && a.veth == b.veth
    &&& a.vrf == b.vrf && a.infiniband == b.infiniband
}

/// The two profiles are the same: identity, setting groups and flags.
pub open spec fn same_profile(a: NmConnection, b: NmConnection) -> bool {
    a.connection == b.connection && same_settings(a, b) && a.flags@ == b.flags@
}

/// View of an optional string.
pub open spec fn ov(o: Option<String>) -> Option<Seq<char>> {
    match o {
        Some(s) => Some(s@),
        None => None,
    }
}

/// View of an optional borrowed string.
pub open spec fn ovr(o: Option<&String>) -> Option<Seq<char>> {
    match o {
        Some(s) => Some(s@),
        None => None,
    }
}

impl NmConnection {
    pub fn new() -> (r: NmConnection)
        ensures
            r.connection is None && r.ipv4 is None && r.ipv6 is None && r.wired is None,
            r.bridge is None && r.bridge_port is None && r.bond is None,
            r.ovs_bridge is None && r.ovs_port is None && r.ovs_iface is None,
            r.vlan is None && r.vxlan is None && r.mac_vlan is None && r.veth is None,
            r.vrf is None && r.infiniband is None && r.flags@.len() == 0,
    {
        NmConnection {
            connection: None,
            ipv4: None,
            ipv6: None,
            wired: None,
            bridge: None,
            bridge_port: None,
            bond: None,
            ovs_bridge: None,
            ovs_port: None,
            ovs_iface: None,
            vlan: None,
            vxlan: None,
            mac_vlan: None,
            veth: None,
            vrf: None,
            infiniband: None,
            flags: Vec::new(),
        }
    }

    /// A copy of the profile, field for field.
    pub fn copy(&self) -> (r: NmConnection)
        ensures
            same_profile(r, *self),
    {
        let mut flags: Vec<NmSettingsConnectionFlag> = Vec::new();
        let mut i: usize = 0;
        while i < self.flags.len()
            invariant
                i <= self.flags@.len(),
                flags@ == self.flags@.subrange(0, i as int),
            decreases self.flags@.len() - i,
        {
            flags.push(self.flags[i]);
            i += 1;
        }
        assert(flags@ =~= self.flags@);
        NmConnection {
            connection: match &self.connection {
                Some(c) => Some(c.copy()),
                None => None,
            },
            ipv4: self.ipv4,
            ipv6: self.ipv6,
            wired: self.wired,
            bridge: self.bridge,
            bridge_port: self.bridge_port,
            bond: self.bond,
            ovs_bridge: self.ovs_bridge,
            ovs_port: match &self.ovs_port {
                Some(c) => Some(c.copy()),
                None => None,
            },
            ovs_iface: self.ovs_iface,
            vlan: match &self.vlan {
                Some(c) => Some(c.copy()),
                None => None,
            },
            vxlan: match &self.vxlan {
                Some(c) => Some(c.copy()),
                None => None,
            },
            mac_vlan: match &self.mac_vlan {
                Some(c) => Some(c.copy()),
                None => None,
            },
            veth: match &self.veth {
                Some(c) => Some(VethSetting { peer: c.peer.clone() }),
                None => None,
            },
            vrf: self.vrf,
            infiniband: self.infiniband,
            flags,
        }
    }

    pub open spec fn iface_name_spec(&self) -> Option<Seq<char>> {
        match self.connection {
            Some(c) => ov(c.iface_name),
            None => None,
        }
    }

    pub open spec fn iface_type_spec(&self) -> Option<Seq<char>> {
        match self.connection {
            Some(c) => ov(c.iface_type),
            None => None,
        }
    }

    pub open spec fn uuid_spec(&self) -> Option<Seq<char>> {
        match self.connection {
            Some(c) => ov(c.uuid),
            None => None,
        }
    }

    pub open spec fn controller_spec(&self) -> Option<Seq<char>> {
        match self.connection {
            Some(c) => ov(c.controller),
            None => None,
        }
    }

    pub open spec fn controller_type_spec(&self) -> Option<Seq<char>> {
        match self.connection {
            Some(c) => ov(c.controller_type),
            None => None,
        }
    }

    pub fn iface_name(&self) -> (r: Option<&String>)
        ensures
            ovr(r) == self.iface_name_spec(),
    {
        match &self.connection {
            Some(c) => c.iface_name.as_ref(),
            None => None,
        }
    }

    pub fn iface_type(&self) -> (r: Option<&String>)
        ensures
            ovr(r) == self.iface_type_spec(),
    {
        match &self.connection {
            Some(c) => c.iface_type.as_ref(),
            None => None,
        }
    }

    pub fn uuid(&self) -> (r: Option<&String>)
        ensures
            ovr(r) == self.uuid_spec(),
    {
        match &self.connection {
            Some(c) => c.uuid.as_ref(),
            None => None,
        }
    }

    pub fn controller_type(&self) -> (r: Option<&String>)
        ensures
            ovr(r) == self.controller_type_spec(),
    {
        match &self.connection {
            Some(c) => c.controller_type.as_ref(),
            None => None,
        }
    }

    pub fn is_external(&self) -> (r: bool)
        ensures
            r == self.flags@.contains(NmSettingsConnectionFlag::External),
    {
        let mut i: usize = 0;
        while i < self.flags.len()
            invariant
                i <= self.flags@.len(),
                forall|j: int| 0 <= j < i ==> self.flags@[j] != NmSettingsConnectionFlag::External,
            decreases self.flags@.len() - i,
        {
            if self.flags[i] == NmSettingsConnectionFlag::External {
                return true;
            }
            i += 1;
        }
        false
    }
}

pub open spec fn is_lower_hex_digit(c: char) -> bool {
    (('0' as u32) <= (c as u32) && (c as u32) <= ('9' as u32)) || (('a' as u32) <= (c as u32) && (c as u32) <= ('f' as u32))
}

/// Hyphenated text of an identifier of the given version: 36 lower-case hex
/// digits and hyphens, the version digit, and a variant digit of the
/// standard layout.
pub open spec fn is_hyphenated_uuid(s: Seq<char>, version: char) -> bool {
    &&& s.len() == 36
    &&& forall|i: int| 0 <= i < 36 ==> if i == 8 || i == 13 || i == 18 || i == 23 {
        s[i] == '-'
    } else {
        is_lower_hex_digit(s[i])
    }
    &&& s[14] == version
    &&& s[19] == '8' || s[19] == '9' || s[19] == 'a' || s[19] == 'b'
}

/// The hyphenated name-based (SHA-1, URL namespace) identifier of a name.
pub uninterp spec fn uuid_v5_url_of(name: Seq<char>) -> Seq<char>;

/// Relies on uuid::Uuid::new_v5 over the URL namespace and its hyphenated
/// lower-case hyphenated text form: a function of the name's bytes alone, a
/// version 5 identifier.
#[verifier::external_body]
pub(crate) fn uuid_v5_url(name: &str) -> (r: String)
    ensures
        r@ == uuid_v5_url_of(name@),
        r@.len() == 36,
        is_hyphenated_uuid(r@, '5'),
{
    uuid::Uuid::new_v5(&uuid::Uuid::NAMESPACE_URL, name.as_bytes()).hyphenated().to_string()
}

/// Relies on uuid::Uuid::new_v4 and its lower-case hyphenated text form: a
/// random version 4 identifier.
#[verifier::external_body]
pub(crate) fn uuid_random() -> (r: String)
    ensures
        r@.len() == 36,
        is_hyphenated_uuid(r@, '4'),
{
    uuid::Uuid::new_v4().hyphenated().to_string()
}

} // verus!
