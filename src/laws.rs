use vstd::prelude::*;
use crate::connection::{
    compiled_ok, companion_count, has_match, implicit_ovs_port, is_preferred_match,
    ovs_ports, peer_needed, profile_active, profile_matches, stable_uuid_of,
    stored_ctrl_type,
};
use crate::iface::{is_ovs_port_type, nm_type_spec, BaseInterface, Interface, InterfaceType};
use crate::nm::{ov, same_settings, NmConnection, NmSettingConnection};
use crate::revert::revert_choice;

verus! {

/// The two identity records hold the same text and flags.
pub open spec fn identities_agree(s: NmSettingConnection, t: NmSettingConnection) -> bool {
    &&& ov(s.id) == ov(t.id) && ov(s.uuid) == ov(t.uuid) && ov(s.iface_type) == ov(t.iface_type)
    &&& ov(s.iface_name) == ov(t.iface_name) && ov(s.controller) == ov(t.controller)
    &&& ov(s.controller_type) == ov(t.controller_type)
    &&& s.autoconnect == t.autoconnect && s.autoconnect_ports == t.autoconnect_ports && s.lldp == t.lldp
}

/// The two profiles agree on their identity record, every setting group and
/// their flags.
pub open spec fn profiles_agree(a: NmConnection, b: NmConnection) -> bool {
    &&& a.connection is Some && b.connection is Some
    &&& identities_agree(a.connection.unwrap(), b.connection.unwrap())
    &&& same_settings(a, b)
    &&& a.flags@ == b.flags@
}

/// Compiling the same interface from a clean slate gives the same list of
/// profiles, profile for profile, with identifiers derived in stable mode.
pub proof fn lemma_stable_compilation_deterministic(
    iface: Interface,
    ctrl_iface: Option<&Interface>,
    active: Seq<String>,
    veth_peer_exist_in_desire: bool,
    v1: Seq<NmConnection>,
    v2: Seq<NmConnection>,
)
    requires
        compiled_ok(iface, ctrl_iface, Seq::empty(), active, veth_peer_exist_in_desire, v1),
        compiled_ok(iface, ctrl_iface, Seq::empty(), active, veth_peer_exist_in_desire, v2),
    ensures
        v1.len() == v2.len(),
        forall|i: int| 0 <= i < v1.len() ==> profiles_agree(#[trigger] v1[i], v2[i]),
        ov(v1[0].connection.unwrap().uuid) == Some(stable_uuid_of(iface)),
{
    assert(!has_match(Seq::<NmConnection>::empty(), iface, active));
    let n = ovs_ports(iface).len() as int;
    assert forall|i: int| 0 <= i < v1.len() implies profiles_agree(#[trigger] v1[i], v2[i]) by {
        if i == 0 {
            assert(v1[0].flags@ =~= v2[0].flags@);
        } else if i < 1 + n {
            let k = i - 1;
            assert(v1[1 + k] == v1[i] && v2[1 + k] == v2[i]);
            assert(v1[i].flags@ =~= v2[i].flags@);
        } else if peer_needed(iface, veth_peer_exist_in_desire) && i == 1 + n {
            assert(v1[i].flags@ =~= v2[i].flags@);
        } else {
            assert(i == v1.len() - 1);
            assert(v1[i].flags@ =~= v2[i].flags@);
        }
    }
}

/// Of two matching profiles, one active and one not, the matcher picks the
/// active one, wherever the two stand in the list.
pub proof fn lemma_match_prefers_active(
    exist: Seq<NmConnection>,
    name: Seq<char>,
    t: Seq<char>,
    active: Seq<String>,
    a: int,
    b: int,
    i: int,
)
    requires
        0 <= a < exist.len() && 0 <= b < exist.len(),
        profile_matches(exist[a], name, t) && profile_active(exist[a], active),
        profile_matches(exist[b], name, t) && !profile_active(exist[b], active),
        forall|j: int| 0 <= j < exist.len() && j != a && j != b ==> !profile_matches(exist[j], name, t),
        is_preferred_match(exist, name, t, active, i),
    ensures
        i == a,
{
}

/// With no active match, the matcher picks the last match in list order.
pub proof fn lemma_match_falls_back_to_last(
    exist: Seq<NmConnection>,
    name: Seq<char>,
    t: Seq<char>,
    active: Seq<String>,
    m: int,
    i: int,
)
    requires
        0 <= m < exist.len() && profile_matches(exist[m], name, t),
        forall|j: int| 0 <= j < exist.len() ==> !profile_active(exist[j], active),
        is_preferred_match(exist, name, t, active, i),
    ensures
        m <= i,
        forall|j: int| i < j < exist.len() ==> !profile_matches(exist[j], name, t),
{
}

/// A link-peer profile matches a request for the plain wired family, but a
/// plain wired profile does not match a request for the link-peer family.
pub proof fn lemma_veth_wired_coupling(c: NmConnection, name: Seq<char>)
    requires
        c.iface_name_spec() == Some(name),
    ensures
        c.iface_type_spec() == Some("veth"@) ==> profile_matches(c, name, nm_type_spec(InterfaceType::Ethernet).unwrap()),
        c.iface_type_spec() == Some("802-3-ethernet"@) ==> !profile_matches(c, name, nm_type_spec(InterfaceType::Veth).unwrap()),
{
    reveal_strlit("veth");
    reveal_strlit("802-3-ethernet");
    assert("veth"@.len() != "802-3-ethernet"@.len());
}

/// An interface under a switch bridge that is not itself a switch port is
/// attached to a switch port.
pub proof fn lemma_switch_bridge_controller_is_port(own: InterfaceType)
    requires
        !is_ovs_port_type(own),
    ensures
        stored_ctrl_type(nm_type_spec(InterfaceType::OvsBridge).unwrap(), own) == "ovs-port"@,
{
}

/// An interface that names a switch bridge controller absent from the
/// batch, with no ports or link peer of its own, compiles to exactly two
/// profiles: the primary one and a switch-port profile for the same
/// interface, bound to that controller.
pub proof fn lemma_implicit_port_gives_two_profiles(
    iface: Interface,
    ctrl_iface: Option<&Interface>,
    exist: Seq<NmConnection>,
    active: Seq<String>,
    veth_peer_exist_in_desire: bool,
    v: Seq<NmConnection>,
)
    requires
        implicit_ovs_port(iface, ctrl_iface),
        iface.base.controller.unwrap()@.len() > 0,
        ovs_ports(iface).len() == 0,
        !iface.has_veth(),
        compiled_ok(iface, ctrl_iface, exist, active, veth_peer_exist_in_desire, v),
    ensures
        v.len() == 2,
        v[0].iface_name_spec() == Some(iface.base.name@),
        v[1].iface_name_spec() == Some(iface.base.name@),
        v[1].iface_type_spec() == Some("ovs-port"@),
        v[1].controller_spec() == Some(iface.base.controller.unwrap()@),
        v[1].controller_type_spec() == Some("ovs-bridge"@),
{
}

/// Once the desired state loses IP capability, revert restores both address
/// families as they currently are.
pub proof fn lemma_revert_restores_both_families(mine: BaseInterface, desired: BaseInterface, current: BaseInterface)
    requires
        !desired.can_have_ip_spec(),
        mine.can_have_ip_spec(),
    ensures
        revert_choice(true, mine.ipv4, desired.ipv4, current.ipv4) == current.ipv4,
        revert_choice(true, mine.ipv6, desired.ipv6, current.ipv6) == current.ipv6,
{
}

/// When the link peer is already in the desired batch no peer profile is
/// added.
pub proof fn lemma_peer_in_batch_adds_no_profile(iface: Interface, ctrl_iface: Option<&Interface>)
    ensures
        !peer_needed(iface, true),
        companion_count(iface, ctrl_iface, true) == ovs_ports(iface).len() + (if implicit_ovs_port(
            iface,
            ctrl_iface,
        ) { 1int } else { 0 }),
{
}

} // verus!
