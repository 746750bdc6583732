use vstd::prelude::*;
use crate::iface::{BaseInterface, InterfaceType, IpConfig};

verus! {

/// The configuration left by a best-effort normalisation: normalised when
/// that succeeds, unchanged when it fails.
pub open spec fn sanitize_best_effort(c: Option<IpConfig>, max_prefix: u8) -> Option<IpConfig> {
    match c {
        Some(i) => match i.address {
            Some(a) if a.prefix_len > max_prefix => Some(i),
            _ => Some(i.sanitized_spec()),
        },
        None => None,
    }
}

pub open spec fn is_auto_opt(c: Option<IpConfig>) -> bool {
    c matches Some(i) && i.is_auto_spec()
}

pub open spec fn is_static_opt(c: Option<IpConfig>) -> bool {
    c matches Some(i) && !i.is_auto_spec()
}

/// Value of one address family to restore on revert, before normalisation.
pub open spec fn revert_choice(
    lost_ip: bool,
    mine: Option<IpConfig>,
    desired: Option<IpConfig>,
    current: Option<IpConfig>,
) -> Option<IpConfig> {
    if lost_ip || (is_auto_opt(desired) && is_static_opt(current)) {
        current
    } else {
        mine
    }
}

fn sanitize_opt(c: &mut Option<IpConfig>, max_prefix: u8)
    ensures
        *final(c) == sanitize_best_effort(*old(c), max_prefix),
{
    if let Some(i) = c {
        let _ = i.sanitize(max_prefix);
    }
}

impl BaseInterface {
    /// Whether an interface with these attributes may carry IP settings:
    /// one attached to a controller may not, unless the controller is a
    /// routing domain.
    pub open spec fn can_have_ip_spec(&self) -> bool {
        match self.controller {
            None => true,
            Some(c) => c@.len() == 0 || self.controller_type matches Some(InterfaceType::Vrf),
        }
    }

    pub fn can_have_ip(&self) -> (r: bool)
        ensures
            r == self.can_have_ip_spec(),
    {
        match &self.controller {
            None => true,
            Some(c) => c.as_str().is_empty() || matches!(self.controller_type, Some(InterfaceType::Vrf)),
        }
    }

    /// Fills in the IP settings that a revert of `desired` over `current`
    /// has to restore.
    pub fn generate_revert_extra(&mut self, desired: &BaseInterface, current: &BaseInterface)
        ensures
            ({
                let lost = !desired.can_have_ip_spec() && old(self).can_have_ip_spec();
                &&& final(self).ipv4 == sanitize_best_effort(
                    revert_choice(lost, old(self).ipv4, desired.ipv4, current.ipv4), 32)
                &&& final(self).ipv6 == sanitize_best_effort(
                    revert_choice(lost, old(self).ipv6, desired.ipv6, current.ipv6), 128)
            }),
            final(self).name == old(self).name,
            final(self).iface_type == old(self).iface_type,
            final(self).controller == old(self).controller,
            final(self).controller_type == old(self).controller_type,
            final(self).lldp == old(self).lldp,
            final(self).mtu == old(self).mtu,
            final(self).ignore == old(self).ignore,
            final(self).up_exist_config == old(self).up_exist_config,
    {
        if !desired.can_have_ip() && self.can_have_ip() {
            self.ipv4 = current.ipv4;
            self.ipv6 = current.ipv6;
        }
        let d4 = match desired.ipv4 { Some(i) => i.is_auto(), None => false };
        let c4 = match current.ipv4 { Some(i) => !i.is_auto(), None => false };
        if d4 && c4 {
            self.ipv4 = current.ipv4;
        }
        let d6 = match desired.ipv6 { Some(i) => i.is_auto(), None => false };
        let c6 = match current.ipv6 { Some(i) => !i.is_auto(), None => false };
        if d6 && c6 {
            self.ipv6 = current.ipv6;
        }
        sanitize_opt(&mut self.ipv4, 32);
        sanitize_opt(&mut self.ipv6, 128);
    }
}

} // verus!
