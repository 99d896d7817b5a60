//! Ports of the switch and the two ways in which a port carries VLANs.

use vstd::prelude::*;

verus! {

/// How a port carries VLANs.
#[derive(Debug, PartialEq, Eq)]
pub enum OvsPortMode {
    /// The port carries one VLAN, untagged.
    Access(u16),
    /// The port carries the listed VLANs, tagged; an empty list admits every VLAN.
    Trunk(Vec<u16>),
}

/// A port mode as a mathematical value.
pub enum OvsPortModeView {
    Access(u16),
    Trunk(Seq<u16>),
}

impl View for OvsPortMode {
    type V = OvsPortModeView;

    open spec fn view(&self) -> OvsPortModeView {
        match self {
            OvsPortMode::Access(vlan) => OvsPortModeView::Access(*vlan),
            OvsPortMode::Trunk(vlans) => OvsPortModeView::Trunk(vlans@),
        }
    }
}

impl Clone for OvsPortMode {
    fn clone(&self) -> (mode: OvsPortMode)
        ensures
            mode@ == self@,
    {
        match self {
            OvsPortMode::Access(vlan) => OvsPortMode::Access(*vlan),
            OvsPortMode::Trunk(vlans) => {
                let copy = vlans.clone();
                assert(copy@ =~= vlans@);
                OvsPortMode::Trunk(copy)
            },
        }
    }
}

/// A port as the database reports it: its name on the switch, the identity that the
/// database gave it, and its mode.
#[derive(Debug, PartialEq, Eq)]
pub struct OvsPort {
    pub name: String,
    pub uuid: String,
    pub mode: OvsPortMode,
}

/// A port as a mathematical value.
pub struct OvsPortView {
    pub name: Seq<char>,
    pub uuid: Seq<char>,
    pub mode: OvsPortModeView,
}

impl View for OvsPort {
    type V = OvsPortView;

    open spec fn view(&self) -> OvsPortView {
        OvsPortView { name: self.name@, uuid: self.uuid@, mode: self.mode@ }
    }
}

impl Clone for OvsPort {
    fn clone(&self) -> (port: OvsPort)
        ensures
            port@ == self@,
    {
        OvsPort { name: self.name.clone(), uuid: self.uuid.clone(), mode: self.mode.clone() }
    }
}

impl OvsPort {
    /// Makes a port from its three parts. Nothing is checked: that names are unique is
    /// a rule of the database, looked after where ports are added.
    pub fn new(name: &str, uuid: &str, mode: &OvsPortMode) -> (port: OvsPort)
        ensures
            port@ == (OvsPortView { name: name@, uuid: uuid@, mode: mode@ }),
    {
        OvsPort { name: name.to_owned(), uuid: uuid.to_owned(), mode: mode.clone() }
    }
}

/// The ports of a sequence, each as a mathematical value.
pub open spec fn ports_view(ports: Seq<OvsPort>) -> Seq<OvsPortView> {
    ports.map_values(|port: OvsPort| port@)
}

} // verus!
