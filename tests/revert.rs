use nmstate::iface::{BaseInterface, InterfaceType, IpAddress, IpConfig};

fn base(name: &str) -> BaseInterface {
    BaseInterface {
        name: name.to_string(),
        iface_type: InterfaceType::Ethernet,
        controller: None,
        controller_type: None,
        ipv4: None,
        ipv6: None,
        lldp: None,
        mtu: None,
        ignore: false,
        up_exist_config: false,
    }
}

fn static_ip(addr: u128, prefix_len: u8) -> IpConfig {
    IpConfig { enabled: true, dhcp: false, autoconf: false, address: Some(IpAddress { addr, prefix_len }) }
}

fn auto_ip() -> IpConfig {
    IpConfig { enabled: true, dhcp: true, autoconf: true, address: None }
}

#[test]
fn revert_restores_both_families_when_ip_lost() {
    let mut me = base("eth1");
    let mut desired = base("eth1");
    desired.controller = Some("br0".to_string());
    desired.controller_type = Some(InterfaceType::LinuxBridge);
    let mut current = base("eth1");
    current.ipv4 = Some(static_ip(0x0a000001, 24));
    current.ipv6 = Some(IpConfig { enabled: false, dhcp: true, autoconf: false, address: None });
    me.generate_revert_extra(&desired, &current);
    assert_eq!(me.ipv4, Some(static_ip(0x0a000001, 24)));
    assert_eq!(me.ipv6, Some(IpConfig { enabled: false, dhcp: false, autoconf: false, address: None }));
}

#[test]
fn revert_restores_static_family_on_auto_switch() {
    let mut me = base("eth1");
    me.ipv4 = Some(auto_ip());
    me.ipv6 = Some(auto_ip());
    let mut desired = base("eth1");
    desired.ipv4 = Some(auto_ip());
    let mut current = base("eth1");
    current.ipv4 = Some(static_ip(1, 16));
    current.ipv6 = Some(static_ip(2, 64));
    me.generate_revert_extra(&desired, &current);
    assert_eq!(me.ipv4, Some(static_ip(1, 16)));
    assert_eq!(me.ipv6, Some(auto_ip()));
}

#[test]
fn revert_swallows_sanitize_failure() {
    let mut me = base("eth1");
    let bad = IpConfig { enabled: false, dhcp: true, autoconf: false, address: Some(IpAddress { addr: 1, prefix_len: 40 }) };
    me.ipv4 = Some(bad);
    let desired = base("eth1");
    let current = base("eth1");
    me.generate_revert_extra(&desired, &current);
    assert_eq!(me.ipv4, Some(bad));
    assert!(me.can_have_ip());
}
