use nmstate::connection::{get_exist_profile, gen_nm_conn_setting, iface_to_nm_connections};
use nmstate::iface::{
    iface_type_to_nm, BaseInterface, BridgeConfig, ErrorKind, FamilyConfig, Interface,
    InterfaceType, IpAddress, IpConfig, NetworkState, OvsBridgeConfig, OvsPortConfig, VethConfig,
};
use nmstate::nm::{NmConnection, NmSettingConnection, NmSettingsConnectionFlag, OvsIfaceSetting};

fn base(name: &str, t: InterfaceType) -> BaseInterface {
    BaseInterface {
        name: name.to_string(),
        iface_type: t,
        controller: None,
        controller_type: None,
        ipv4: None,
        ipv6: None,
        lldp: None,
        mtu: None,
        ignore: false,
        up_exist_config: false,
    }
}

fn eth(name: &str) -> Interface {
    Interface { base: base(name, InterfaceType::Ethernet), conf: FamilyConfig::Ethernet(None) }
}

fn profile(name: &str, t: &str, uuid: &str) -> NmConnection {
    let mut c = NmConnection::new();
    let mut s = NmSettingConnection::new();
    s.iface_name = Some(name.to_string());
    s.iface_type = Some(t.to_string());
    s.uuid = Some(uuid.to_string());
    c.connection = Some(s);
    c
}

fn empty_state() -> NetworkState {
    NetworkState { interfaces: Vec::new() }
}

fn conn(c: &NmConnection) -> &NmSettingConnection {
    c.connection.as_ref().unwrap()
}

#[test]
fn type_mapper_values() {
    assert_eq!(iface_type_to_nm(&InterfaceType::LinuxBridge).unwrap(), "bridge");
    assert_eq!(iface_type_to_nm(&InterfaceType::Ethernet).unwrap(), "802-3-ethernet");
    assert_eq!(iface_type_to_nm(&InterfaceType::MacVtap).unwrap(), "macvlan");
    assert_eq!(iface_type_to_nm(&InterfaceType::Other("ovs-port".to_string())).unwrap(), "ovs-port");
    let e = iface_type_to_nm(&InterfaceType::Loopback).unwrap_err();
    assert_eq!(e.kind(), ErrorKind::NotImplementedError);
}

#[test]
fn compile_is_deterministic_from_clean_slate() {
    let iface = eth("eth1");
    let a = iface_to_nm_connections(&iface, None, &[], &[], false, &empty_state()).unwrap();
    let b = iface_to_nm_connections(&iface, None, &[], &[], false, &empty_state()).unwrap();
    assert_eq!(a.len(), 1);
    assert_eq!(conn(&a[0]).uuid, conn(&b[0]).uuid);
    assert_eq!(conn(&a[0]).id, conn(&b[0]).id);
    assert_eq!(format!("{:?}", a), format!("{:?}", b));
    let expected = uuid::Uuid::new_v5(&uuid::Uuid::NAMESPACE_URL, b"ethernet://eth1").hyphenated().to_string();
    assert_eq!(conn(&a[0]).uuid.as_deref(), Some(expected.as_str()));
    assert_eq!(conn(&a[0]).iface_type.as_deref(), Some("802-3-ethernet"));
}

#[test]
fn random_uuid_when_profiles_exist() {
    let iface = eth("eth1");
    let other = profile("eth9", "802-3-ethernet", "u9");
    let a = iface_to_nm_connections(&iface, None, &[other], &[], false, &empty_state()).unwrap();
    let u = conn(&a[0]).uuid.clone().unwrap();
    assert_eq!(u.len(), 36);
    let stable = uuid::Uuid::new_v5(&uuid::Uuid::NAMESPACE_URL, b"ethernet://eth1").hyphenated().to_string();
    assert_ne!(u, stable);
}

#[test]
fn matcher_prefers_active() {
    let exist = vec![profile("eth1", "802-3-ethernet", "a"), profile("eth1", "802-3-ethernet", "b")];
    let act = vec!["a".to_string()];
    assert_eq!(get_exist_profile(&exist, &"eth1".to_string(), &InterfaceType::Ethernet, &act), Some(0));
    let exist2 = vec![profile("eth1", "802-3-ethernet", "b"), profile("eth1", "802-3-ethernet", "a")];
    assert_eq!(get_exist_profile(&exist2, &"eth1".to_string(), &InterfaceType::Ethernet, &act), Some(1));
}

#[test]
fn matcher_falls_back_to_last() {
    let exist = vec![
        profile("eth1", "802-3-ethernet", "a"),
        profile("eth2", "802-3-ethernet", "x"),
        profile("eth1", "802-3-ethernet", "b"),
        profile("eth1", "bond", "c"),
    ];
    assert_eq!(get_exist_profile(&exist, &"eth1".to_string(), &InterfaceType::Ethernet, &[]), Some(2));
    assert_eq!(get_exist_profile(&exist, &"eth3".to_string(), &InterfaceType::Ethernet, &[]), None);
    assert_eq!(get_exist_profile(&exist, &"eth1".to_string(), &InterfaceType::Loopback, &[]), None);
}

#[test]
fn matcher_veth_coupling_is_one_way() {
    let veth = vec![profile("v1", "veth", "a")];
    assert_eq!(get_exist_profile(&veth, &"v1".to_string(), &InterfaceType::Ethernet, &[]), Some(0));
    let wired = vec![profile("v1", "802-3-ethernet", "a")];
    assert_eq!(get_exist_profile(&wired, &"v1".to_string(), &InterfaceType::Veth, &[]), None);
}

#[test]
fn switch_bridge_controller_becomes_port() {
    let mut iface = eth("eth1");
    iface.base.controller = Some("br0".to_string());
    iface.base.controller_type = Some(InterfaceType::OvsBridge);
    let mut c = NmConnection::new();
    gen_nm_conn_setting(&iface, &mut c, true).unwrap();
    assert_eq!(conn(&c).controller.as_deref(), Some("br0"));
    assert_eq!(conn(&c).controller_type.as_deref(), Some("ovs-port"));
    assert_eq!(conn(&c).autoconnect, Some(true));
    assert_eq!(conn(&c).autoconnect_ports, None);
}

#[test]
fn fresh_names_carry_switch_suffixes() {
    let br = Interface {
        base: base("br0", InterfaceType::OvsBridge),
        conf: FamilyConfig::OvsBridge(OvsBridgeConfig { stp_enabled: false, ports: Vec::new() }),
    };
    let mut c = NmConnection::new();
    gen_nm_conn_setting(&br, &mut c, true).unwrap();
    assert_eq!(conn(&c).id.as_deref(), Some("br0-br"));
    assert_eq!(conn(&c).autoconnect_ports, Some(true));
    let oi = Interface { base: base("if0", InterfaceType::OvsInterface), conf: FamilyConfig::OvsInterface };
    let mut c2 = NmConnection::new();
    gen_nm_conn_setting(&oi, &mut c2, true).unwrap();
    assert_eq!(conn(&c2).id.as_deref(), Some("if0-if"));
}

#[test]
fn unknown_controller_family_fails() {
    let mut iface = eth("eth1");
    iface.base.controller = Some("x".to_string());
    iface.base.controller_type = Some(InterfaceType::Unknown);
    let r = iface_to_nm_connections(&iface, None, &[], &[], false, &empty_state());
    assert_eq!(r.unwrap_err().kind(), ErrorKind::NotImplementedError);
    let lo = Interface { base: base("lo", InterfaceType::Loopback), conf: FamilyConfig::Other };
    assert!(iface_to_nm_connections(&lo, None, &[], &[], false, &empty_state()).is_err());
}

#[test]
fn detach_clears_controller_and_switch_interface() {
    let mut old = profile("eth1", "802-3-ethernet", "a");
    {
        let s = old.connection.as_mut().unwrap();
        s.controller = Some("br0".to_string());
        s.controller_type = Some("ovs-port".to_string());
    }
    old.ovs_iface = Some(OvsIfaceSetting { internal: false });
    let mut iface = eth("eth1");
    iface.base.controller = Some(String::new());
    let v = iface_to_nm_connections(&iface, None, &[old], &[], false, &empty_state()).unwrap();
    assert_eq!(v.len(), 1);
    assert_eq!(conn(&v[0]).controller, None);
    assert_eq!(conn(&v[0]).controller_type, None);
    assert!(v[0].ovs_iface.is_none());
    assert_eq!(conn(&v[0]).uuid.as_deref(), Some("a"));
}

#[test]
fn implicit_switch_port_companion() {
    let mut iface = eth("eth1");
    iface.base.controller = Some("br0".to_string());
    iface.base.controller_type = Some(InterfaceType::OvsBridge);
    let v = iface_to_nm_connections(&iface, None, &[], &[], false, &empty_state()).unwrap();
    assert_eq!(v.len(), 2);
    assert_eq!(conn(&v[0]).iface_name.as_deref(), Some("eth1"));
    assert_eq!(conn(&v[1]).iface_name.as_deref(), Some("eth1"));
    assert_eq!(conn(&v[1]).id.as_deref(), Some("eth1-port"));
    assert_eq!(conn(&v[1]).controller.as_deref(), Some("br0"));
    assert_eq!(conn(&v[1]).controller_type.as_deref(), Some("ovs-bridge"));
}

#[test]
fn switch_bridge_ports_follow_primary() {
    let br = Interface {
        base: base("br0", InterfaceType::OvsBridge),
        conf: FamilyConfig::OvsBridge(OvsBridgeConfig {
            stp_enabled: true,
            ports: vec![
                OvsPortConfig { name: "p1".to_string(), vlan_tag: None },
                OvsPortConfig { name: "p2".to_string(), vlan_tag: Some(5) },
            ],
        }),
    };
    let v = iface_to_nm_connections(&br, None, &[], &[], false, &empty_state()).unwrap();
    assert_eq!(v.len(), 3);
    assert_eq!(conn(&v[0]).id.as_deref(), Some("br0-br"));
    assert_eq!(conn(&v[1]).iface_name.as_deref(), Some("p1"));
    assert_eq!(conn(&v[2]).iface_name.as_deref(), Some("p2"));
    assert_eq!(conn(&v[2]).controller.as_deref(), Some("br0"));
    assert_eq!(v[2].ovs_port.as_ref().unwrap().vlan_tag, Some(5));
}

#[test]
fn bridge_port_from_bridge_controller() {
    let mut iface = eth("eth1");
    iface.base.controller = Some("br0".to_string());
    iface.base.controller_type = Some(InterfaceType::LinuxBridge);
    let br = Interface {
        base: base("br0", InterfaceType::LinuxBridge),
        conf: FamilyConfig::LinuxBridge(BridgeConfig { stp_enabled: false, vlan_filtering: true }),
    };
    let v = iface_to_nm_connections(&iface, Some(&br), &[], &[], false, &empty_state()).unwrap();
    assert_eq!(v.len(), 1);
    assert_eq!(conn(&v[0]).controller_type.as_deref(), Some("bridge"));
    assert!(v[0].bridge_port.unwrap().vlan_filtering);
}

fn veth_iface() -> Interface {
    Interface {
        base: base("v1", InterfaceType::Veth),
        conf: FamilyConfig::Ethernet(Some(VethConfig { peer: "v2".to_string() })),
    }
}

#[test]
fn veth_peer_in_batch_gives_no_companion() {
    let v = iface_to_nm_connections(&veth_iface(), None, &[], &[], true, &empty_state()).unwrap();
    assert_eq!(v.len(), 1);
    assert_eq!(v[0].veth.as_ref().unwrap().peer, "v2");
    assert_eq!(conn(&v[0]).iface_type.as_deref(), Some("veth"));
}

#[test]
fn veth_peer_synthesized_when_absent() {
    let v = iface_to_nm_connections(&veth_iface(), None, &[], &[], false, &empty_state()).unwrap();
    assert_eq!(v.len(), 2);
    assert_eq!(conn(&v[1]).iface_name.as_deref(), Some("v2"));
    assert_eq!(conn(&v[1]).iface_type.as_deref(), Some("veth"));
    assert_eq!(v[1].veth.as_ref().unwrap().peer, "v1");
}

#[test]
fn external_profile_kept_without_live_state() {
    let mut old = profile("eth1", "802-3-ethernet", "a");
    old.flags = vec![NmSettingsConnectionFlag::External];
    let mut iface = eth("eth1");
    iface.base.up_exist_config = true;
    let v = iface_to_nm_connections(&iface, None, &[old], &[], false, &empty_state()).unwrap();
    assert_eq!(v.len(), 1);
    assert_eq!(v[0].flags, vec![NmSettingsConnectionFlag::External]);
}

#[test]
fn external_profile_promoted_from_live_state() {
    let mut old = profile("eth1", "802-3-ethernet", "a");
    old.flags = vec![NmSettingsConnectionFlag::External];
    let mut iface = eth("eth1");
    iface.base.up_exist_config = true;
    let mut live = eth("eth1");
    live.base.mtu = Some(1400);
    live.base.ipv4 = Some(IpConfig {
        enabled: true,
        dhcp: false,
        autoconf: false,
        address: Some(IpAddress { addr: 0x0a000001, prefix_len: 24 }),
    });
    let state = NetworkState { interfaces: vec![live] };
    let v = iface_to_nm_connections(&iface, None, &[old], &[], false, &state).unwrap();
    assert_eq!(v.len(), 1);
    assert!(v[0].flags.is_empty());
    assert_eq!(v[0].wired.unwrap().mtu, Some(1400));
    assert_eq!(v[0].ipv4.unwrap().address.unwrap().prefix_len, 24);
}

#[test]
fn detach_ignores_unmappable_controller_family() {
    let mut iface = eth("eth1");
    iface.base.controller = Some(String::new());
    iface.base.controller_type = Some(InterfaceType::Loopback);
    let mut c = profile("eth1", "802-3-ethernet", "a");
    c.connection.as_mut().unwrap().controller = Some("br0".to_string());
    c.connection.as_mut().unwrap().controller_type = Some("bridge".to_string());
    gen_nm_conn_setting(&iface, &mut c, false).unwrap();
    assert_eq!(conn(&c).controller, None);
    assert_eq!(conn(&c).controller_type, None);
}

#[test]
fn matched_identity_is_reused() {
    let mut old = profile("eth1", "802-3-ethernet", "keep-me");
    old.connection.as_mut().unwrap().id = Some("my-eth".to_string());
    let iface = eth("eth1");
    let v = iface_to_nm_connections(&iface, None, &[old], &[], false, &empty_state()).unwrap();
    assert_eq!(conn(&v[0]).uuid.as_deref(), Some("keep-me"));
    assert_eq!(conn(&v[0]).id.as_deref(), Some("my-eth"));
    assert_eq!(conn(&v[0]).autoconnect, Some(true));
}

#[test]
fn companion_families_are_set() {
    let br = Interface {
        base: base("br0", InterfaceType::OvsBridge),
        conf: FamilyConfig::OvsBridge(OvsBridgeConfig {
            stp_enabled: false,
            ports: vec![OvsPortConfig { name: "p1".to_string(), vlan_tag: None }],
        }),
    };
    let v = iface_to_nm_connections(&br, None, &[], &[], false, &empty_state()).unwrap();
    assert_eq!(conn(&v[1]).iface_type.as_deref(), Some("ovs-port"));
    assert_eq!(conn(&v[1]).controller_type.as_deref(), Some("ovs-bridge"));
    assert_eq!(conn(&v[1]).id.as_deref(), Some("p1-port"));
    let expected = uuid::Uuid::new_v5(&uuid::Uuid::NAMESPACE_URL, b"ovs-port://p1").hyphenated().to_string();
    assert_eq!(conn(&v[1]).uuid.as_deref(), Some(expected.as_str()));
}

#[test]
fn unmanaged_live_interface_becomes_managed() {
    let mut iface = eth("eth1");
    iface.base.up_exist_config = true;
    let mut live = eth("eth1");
    live.base.ignore = true;
    live.base.mtu = Some(9000);
    let state = NetworkState { interfaces: vec![live] };
    let v = iface_to_nm_connections(&iface, None, &[], &[], false, &state).unwrap();
    assert_eq!(v.len(), 1);
    assert_eq!(v[0].wired.unwrap().mtu, Some(9000));
    assert_eq!(conn(&v[0]).iface_name.as_deref(), Some("eth1"));
}

#[test]
fn non_external_profile_kept_with_live_state() {
    let mut old = profile("eth1", "802-3-ethernet", "a");
    old.flags = vec![NmSettingsConnectionFlag::Unsaved];
    let mut iface = eth("eth1");
    iface.base.up_exist_config = true;
    let state = NetworkState { interfaces: vec![eth("eth1")] };
    let v = iface_to_nm_connections(&iface, None, &[old], &[], false, &state).unwrap();
    assert_eq!(v.len(), 1);
    assert_eq!(v[0].flags, vec![NmSettingsConnectionFlag::Unsaved]);
    assert_eq!(conn(&v[0]).uuid.as_deref(), Some("a"));
}

#[test]
fn unmappable_controller_family_without_name_fails() {
    let mut iface = eth("eth1");
    iface.base.controller_type = Some(InterfaceType::Unknown);
    let mut c = NmConnection::new();
    let e = gen_nm_conn_setting(&iface, &mut c, true).unwrap_err();
    assert_eq!(e.kind(), ErrorKind::NotImplementedError);
    assert!(c.connection.is_none());
}

#[test]
fn detach_from_switch_bridge_adds_no_port() {
    let mut iface = eth("eth1");
    iface.base.controller = Some(String::new());
    iface.base.controller_type = Some(InterfaceType::OvsBridge);
    let v = iface_to_nm_connections(&iface, None, &[], &[], false, &empty_state()).unwrap();
    assert_eq!(v.len(), 1);
    assert_eq!(conn(&v[0]).controller, None);
}

#[test]
fn veth_peer_reuses_existing_identity() {
    let mut peer = profile("v2", "802-3-ethernet", "peer-uuid");
    peer.connection.as_mut().unwrap().id = Some("peer-id".to_string());
    let v = iface_to_nm_connections(&veth_iface(), None, &[peer], &[], false, &empty_state()).unwrap();
    assert_eq!(v.len(), 2);
    assert_eq!(conn(&v[1]).uuid.as_deref(), Some("peer-uuid"));
    assert_eq!(conn(&v[1]).id.as_deref(), Some("peer-id"));
    assert_eq!(conn(&v[1]).iface_type.as_deref(), Some("802-3-ethernet"));
}

#[test]
fn userspace_keep_current_keeps_matched_profile() {
    let mut old = profile("br0", "ovs-bridge", "b");
    old.flags = vec![NmSettingsConnectionFlag::External];
    let mut br = Interface {
        base: base("br0", InterfaceType::OvsBridge),
        conf: FamilyConfig::OvsBridge(OvsBridgeConfig { stp_enabled: false, ports: Vec::new() }),
    };
    br.base.up_exist_config = true;
    let state = NetworkState { interfaces: vec![eth("br0")] };
    let v = iface_to_nm_connections(&br, None, &[old], &[], false, &state).unwrap();
    assert_eq!(v.len(), 1);
    assert_eq!(v[0].flags, vec![NmSettingsConnectionFlag::External]);
}

#[test]
fn random_uuid_has_version_four_shape() {
    let other = profile("eth9", "802-3-ethernet", "u9");
    let v = iface_to_nm_connections(&eth("eth1"), None, &[other], &[], false, &empty_state()).unwrap();
    let u: Vec<char> = conn(&v[0]).uuid.clone().unwrap().chars().collect();
    assert_eq!(u.len(), 36);
    for (i, c) in u.iter().enumerate() {
        if i == 8 || i == 13 || i == 18 || i == 23 {
            assert_eq!(*c, '-');
        } else {
            assert!(c.is_ascii_digit() || ('a'..='f').contains(c));
        }
    }
    assert_eq!(u[14], '4');
    assert!(['8', '9', 'a', 'b'].contains(&u[19]));
}
