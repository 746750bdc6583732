use vstd::prelude::*;
use vstd::string::*;

verus! {

/// Kind of failure reported while turning an interface into profiles.
#[derive(Clone, Copy, Debug, PartialEq, Eq, Structural)]
pub enum ErrorKind {
    NotImplementedError,
    InvalidArgument,
}

#[derive(Clone, Debug)]
pub struct NmstateError {
    pub kind: ErrorKind,
    pub msg: String,
}

impl NmstateError {
    pub fn new(kind: ErrorKind, msg: &str) -> (r: NmstateError)
        ensures
            r.kind == kind,
            r.msg@ == msg@,
    {
        NmstateError { kind, msg: msg.to_owned() }
    }

    pub fn kind(&self) -> (r: ErrorKind)
        ensures
            r == self.kind,
    {
        self.kind
    }
}

/// Closed set of interface families.
#[derive(Clone, Debug)]
pub enum InterfaceType {
    Ethernet,
    LinuxBridge,
    Bond,
    OvsBridge,
    OvsInterface,
    Vlan,
    Vxlan,
    Dummy,
    MacVlan,
    MacVtap,
    Vrf,
    Veth,
    InfiniBand,
    Loopback,
    Unknown,
    Other(String),
}

/// The on-wire family string of an interface family, if it has one.
pub open spec fn nm_type_spec(t: InterfaceType) -> Option<Seq<char>> {
    match t {
        InterfaceType::LinuxBridge => Some("bridge"@),
        InterfaceType::Bond => Some("bond"@),
        InterfaceType::Ethernet => Some("802-3-ethernet"@),
        InterfaceType::OvsBridge => Some("ovs-bridge"@),
        InterfaceType::OvsInterface => Some("ovs-interface"@),
        InterfaceType::Vlan => Some("vlan"@),
        InterfaceType::Vxlan => Some("vxlan"@),
        InterfaceType::Dummy => Some("dummy"@),
        InterfaceType::MacVlan => Some("macvlan"@),
        InterfaceType::MacVtap => Some("macvlan"@),
        InterfaceType::Vrf => Some("vrf"@),
        InterfaceType::Veth => Some("veth"@),
        InterfaceType::InfiniBand => Some("infiniband"@),
        InterfaceType::Other(s) => Some(s@),
        _ => None,
    }
}

/// Maps an interface family to the on-wire family string of the daemon.
pub fn iface_type_to_nm(iface_type: &InterfaceType) -> (r: Result<String, NmstateError>)
    ensures
        match r {
            Ok(s) => nm_type_spec(*iface_type) == Some(s@),
            Err(e) => nm_type_spec(*iface_type).is_none() && e.kind == ErrorKind::NotImplementedError,
        },
{
    match iface_type {
        InterfaceType::LinuxBridge => Ok(String::from_str("bridge")),
        InterfaceType::Bond => Ok(String::from_str("bond")),
        InterfaceType::Ethernet => Ok(String::from_str("802-3-ethernet")),
        InterfaceType::OvsBridge => Ok(String::from_str("ovs-bridge")),
        InterfaceType::OvsInterface => Ok(String::from_str("ovs-interface")),
        InterfaceType::Vlan => Ok(String::from_str("vlan")),
        InterfaceType::Vxlan => Ok(String::from_str("vxlan")),
        InterfaceType::Dummy => Ok(String::from_str("dummy")),
        InterfaceType::MacVlan => Ok(String::from_str("macvlan")),
        InterfaceType::MacVtap => Ok(String::from_str("macvlan")),
        InterfaceType::Vrf => Ok(String::from_str("vrf")),
        InterfaceType::Veth => Ok(String::from_str("veth")),
        InterfaceType::InfiniBand => Ok(String::from_str("infiniband")),
        InterfaceType::Other(s) => Ok(s.clone()),
        _ => Err(NmstateError::new(ErrorKind::NotImplementedError, "unsupported interface type")),
    }
}


/// Lower-case name of an interface family, used to key stable identifiers.
pub open spec fn type_name_spec(t: InterfaceType) -> Seq<char> {
    match t {
        InterfaceType::Ethernet => "ethernet"@,
        InterfaceType::LinuxBridge => "linux-bridge"@,
        InterfaceType::Bond => "bond"@,
        InterfaceType::OvsBridge => "ovs-bridge"@,
        InterfaceType::OvsInterface => "ovs-interface"@,
        InterfaceType::Vlan => "vlan"@,
        InterfaceType::Vxlan => "vxlan"@,
        InterfaceType::Dummy => "dummy"@,
        InterfaceType::MacVlan => "mac-vlan"@,
        InterfaceType::MacVtap => "mac-vtap"@,
        InterfaceType::Vrf => "vrf"@,
        InterfaceType::Veth => "veth"@,
        InterfaceType::InfiniBand => "infiniband"@,
        InterfaceType::Loopback => "loopback"@,
        InterfaceType::Unknown => "unknown"@,
        InterfaceType::Other(s) => s@,
    }
}

impl InterfaceType {
    pub fn family_name(&self) -> (r: String)
        ensures
            r@ == type_name_spec(*self),
    {
        match self {
            InterfaceType::Ethernet => String::from_str("ethernet"),
            InterfaceType::LinuxBridge => String::from_str("linux-bridge"),
            InterfaceType::Bond => String::from_str("bond"),
            InterfaceType::OvsBridge => String::from_str("ovs-bridge"),
            InterfaceType::OvsInterface => String::from_str("ovs-interface"),
            InterfaceType::Vlan => String::from_str("vlan"),
            InterfaceType::Vxlan => String::from_str("vxlan"),
            InterfaceType::Dummy => String::from_str("dummy"),
            InterfaceType::MacVlan => String::from_str("mac-vlan"),
            InterfaceType::MacVtap => String::from_str("mac-vtap"),
            InterfaceType::Vrf => String::from_str("vrf"),
            InterfaceType::Veth => String::from_str("veth"),
            InterfaceType::InfiniBand => String::from_str("infiniband"),
            InterfaceType::Loopback => String::from_str("loopback"),
            InterfaceType::Unknown => String::from_str("unknown"),
            InterfaceType::Other(s) => s.clone(),
        }
    }

    pub fn copy(&self) -> (r: InterfaceType)
        ensures
            r == *self,
    {
        match self {
            InterfaceType::Ethernet => InterfaceType::Ethernet,
            InterfaceType::LinuxBridge => InterfaceType::LinuxBridge,
            InterfaceType::Bond => InterfaceType::Bond,
            InterfaceType::OvsBridge => InterfaceType::OvsBridge,
            InterfaceType::OvsInterface => InterfaceType::OvsInterface,
            InterfaceType::Vlan => InterfaceType::Vlan,
            InterfaceType::Vxlan => InterfaceType::Vxlan,
            InterfaceType::Dummy => InterfaceType::Dummy,
            InterfaceType::MacVlan => InterfaceType::MacVlan,
            InterfaceType::MacVtap => InterfaceType::MacVtap,
            InterfaceType::Vrf => InterfaceType::Vrf,
            InterfaceType::Veth => InterfaceType::Veth,
            InterfaceType::InfiniBand => InterfaceType::InfiniBand,
            InterfaceType::Loopback => InterfaceType::Loopback,
            InterfaceType::Unknown => InterfaceType::Unknown,
            InterfaceType::Other(s) => InterfaceType::Other(s.clone()),
        }
    }
}

pub open spec fn is_ovs_port_type(t: InterfaceType) -> bool {
    match t {
        InterfaceType::Other(s) => s@ == "ovs-port"@,
        _ => false,
    }
}

pub fn is_ovs_port(t: &InterfaceType) -> (r: bool)
    ensures
        r == is_ovs_port_type(*t),
{
    match t {
        InterfaceType::Other(s) => {
            let p = String::from_str("ovs-port");
            *s == p
        },
        _ => false,
    }
}

/// Families whose interfaces aggregate ports.
pub open spec fn is_controller_type(t: InterfaceType) -> bool {
    t is LinuxBridge || t is Bond || t is OvsBridge || t is Vrf
}

/// Families that exist only in user space, with no kernel interface.
pub open spec fn is_userspace_type(t: InterfaceType) -> bool {
    t is OvsBridge || t is Other
}

/// A static address with its prefix length.
#[derive(Clone, Copy, Debug, PartialEq, Eq, Structural)]
pub struct IpAddress {
    pub addr: u128,
    pub prefix_len: u8,
}

/// IP settings of one address family.
#[derive(Clone, Copy, Debug, PartialEq, Eq, Structural)]
pub struct IpConfig {
    pub enabled: bool,
    pub dhcp: bool,
    pub autoconf: bool,
        pub address: Option<IpAddress>,
}

impl IpConfig {
    pub open spec fn is_auto_spec(&self) -> bool {
        self.enabled && (self.dhcp || self.autoconf)
    }

    pub fn is_auto(&self) -> (r: bool)
        ensures
            r == self.is_auto_spec(),
    {
        self.enabled && (self.dhcp || self.autoconf)
    }

    /// The configuration after normalisation: a disabled family carries no
    /// automatic mode and no address.
    pub open spec fn sanitized_spec(self) -> IpConfig {
        if self.enabled {
            self
        } else {
            IpConfig { enabled: false, dhcp: false, autoconf: false, address: None }
        }
    }

    /// Normalises the configuration; fails, leaving it unchanged, when the
    /// address prefix exceeds `max_prefix`.
    pub fn sanitize(&mut self, max_prefix: u8) -> (r: Result<(), NmstateError>)
        ensures
            match old(self).address {
                Some(a) if a.prefix_len > max_prefix => r is Err && *final(self) == *old(self),
                _ => r is Ok && *final(self) == old(self).sanitized_spec(),
            },
    {
        if let Some(a) = self.address {
            if a.prefix_len > max_prefix {
                return Err(NmstateError::new(ErrorKind::InvalidArgument, "address prefix too long"));
            }
        }
        if !self.enabled {
            self.dhcp = false;
            self.autoconf = false;
            self.address = None;
        }
        Ok(())
    }
}

/// Attributes shared by every interface family.
#[derive(Clone, Debug)]
pub struct BaseInterface {
    pub name: String,
    pub iface_type: InterfaceType,
    /// Controller name; the empty string asks for a detach.
    pub controller: Option<String>,
    pub controller_type: Option<InterfaceType>,
    pub ipv4: Option<IpConfig>,
    pub ipv6: Option<IpConfig>,
    pub lldp: Option<bool>,
    pub mtu: Option<u64>,
    /// Not managed by the daemon.
    pub ignore: bool,
    /// Desired state is to keep what currently exists.
    pub up_exist_config: bool,
}

impl BaseInterface {
    pub fn copy(&self) -> (r: BaseInterface)
        ensures
            r == *self,
    {
        BaseInterface {
            name: self.name.clone(),
            iface_type: self.iface_type.copy(),
            controller: match &self.controller {
                Some(c) => Some(c.clone()),
                None => None,
            },
            controller_type: match &self.controller_type {
                Some(t) => Some(t.copy()),
                None => None,
            },
            ipv4: self.ipv4,
            ipv6: self.ipv6,
            lldp: self.lldp,
            mtu: self.mtu,
            ignore: self.ignore,
            up_exist_config: self.up_exist_config,
        }
    }
}

#[derive(Clone, Debug)]
pub struct VethConfig {
    pub peer: String,
}

#[derive(Clone, Copy, Debug, PartialEq, Eq, Structural)]
pub struct BridgeConfig {
    pub stp_enabled: bool,
    pub vlan_filtering: bool,
}

#[derive(Clone, Copy, Debug, PartialEq, Eq, Structural)]
pub struct BondConfig {
    pub mode: u32,
    pub miimon: u32,
}

#[derive(Clone, Debug)]
pub struct OvsPortConfig {
    pub name: String,
    pub vlan_tag: Option<u16>,
}

impl OvsPortConfig {
    pub fn copy(&self) -> (r: OvsPortConfig)
        ensures
            r == *self,
    {
        OvsPortConfig { name: self.name.clone(), vlan_tag: self.vlan_tag }
    }
}

#[derive(Clone, Debug)]
pub struct OvsBridgeConfig {
    pub stp_enabled: bool,
    pub ports: Vec<OvsPortConfig>,
}

#[derive(Clone, Debug)]
pub struct VlanConfig {
    pub base_iface: String,
    pub id: u16,
}

impl VlanConfig {
    pub fn copy(&self) -> (r: VlanConfig)
        ensures
            r == *self,
    {
        VlanConfig { base_iface: self.base_iface.clone(), id: self.id }
    }
}

#[derive(Clone, Debug)]
pub struct VxlanConfig {
    pub base_iface: String,
    pub id: u32,
    pub dst_port: u16,
}

impl VxlanConfig {
    pub fn copy(&self) -> (r: VxlanConfig)
        ensures
            r == *self,
    {
        VxlanConfig { base_iface: self.base_iface.clone(), id: self.id, dst_port: self.dst_port }
    }
}

#[derive(Clone, Debug)]
pub struct MacVlanConfig {
    pub base_iface: String,
    pub mode: u32,
}

impl MacVlanConfig {
    pub fn copy(&self) -> (r: MacVlanConfig)
        ensures
            r == *self,
    {
        MacVlanConfig { base_iface: self.base_iface.clone(), mode: self.mode }
    }
}

#[derive(Clone, Copy, Debug, PartialEq, Eq, Structural)]
pub struct VrfConfig {
    pub table_id: u32,
}

#[derive(Clone, Copy, Debug, PartialEq, Eq, Structural)]
pub struct InfiniBandConfig {
    pub pkey: Option<u16>,
}

/// Family-specific part of an interface.
#[derive(Clone, Debug)]
pub enum FamilyConfig {
    Ethernet(Option<VethConfig>),
    LinuxBridge(BridgeConfig),
    Bond(BondConfig),
    OvsBridge(OvsBridgeConfig),
    OvsInterface,
    Vlan(Option<VlanConfig>),
    Vxlan(Option<VxlanConfig>),
    MacVlan(Option<MacVlanConfig>),
    MacVtap(Option<MacVlanConfig>),
    Vrf(Option<VrfConfig>),
    InfiniBand(InfiniBandConfig),
    Other,
}

/// A desired interface: its base attributes and its family configuration.
#[derive(Clone, Debug)]
pub struct Interface {
    pub base: BaseInterface,
    pub conf: FamilyConfig,
}

impl Interface {
    pub open spec fn has_veth(&self) -> bool {
        self.conf matches FamilyConfig::Ethernet(Some(_))
    }
}

/// Live network state: the interfaces the kernel reports, with their routes.
pub struct NetworkState {
    pub interfaces: Vec<Interface>,
}

impl NetworkState {
    /// Index of the first kernel interface named `name`.
    pub fn get_kernel_iface_with_route(&self, name: &String) -> (r: Option<usize>)
        ensures
            match r {
                Some(i) => i < self.interfaces@.len()
                    && self.interfaces@[i as int].base.name@ == name@
                    && !is_userspace_type(self.interfaces@[i as int].base.iface_type)
                    && forall|j: int| 0 <= j < i ==> !(self.interfaces@[j].base.name@ == name@
                        && !is_userspace_type(self.interfaces@[j].base.iface_type)),
                None => forall|j: int| 0 <= j < self.interfaces@.len() ==> !(self.interfaces@[j].base.name@ == name@
                    && !is_userspace_type(self.interfaces@[j].base.iface_type)),
            },
    {
        let mut i: usize = 0;
        while i < self.interfaces.len()
            invariant
                i <= self.interfaces@.len(),
                forall|j: int| 0 <= j < i ==> !(self.interfaces@[j].base.name@ == name@
                    && !is_userspace_type(self.interfaces@[j].base.iface_type)),
            decreases self.interfaces@.len() - i,
        {
            let b = &self.interfaces[i].base;
            let userspace = match b.iface_type {
                InterfaceType::OvsBridge | InterfaceType::Other(_) => true,
                _ => false,
            };
            if b.name == *name && !userspace {
                return Some(i);
            }
            i += 1;
        }
        None
    }
}

} // verus!
