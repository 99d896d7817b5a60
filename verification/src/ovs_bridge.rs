//! Bridges of the switch.

use crate::ovs_port::{ports_view, OvsPort, OvsPortView};
use vstd::prelude::*;

verus! {

/// A bridge as the database reports it, with the ports that it refers to.
#[derive(Debug, PartialEq, Eq)]
pub struct OvsBridge {
    pub name: String,
    pub uuid: String,
    pub ports: Vec<OvsPort>,
}

/// A bridge as a mathematical value.
pub struct OvsBridgeView {
    pub name: Seq<char>,
    pub uuid: Seq<char>,
    pub ports: Seq<OvsPortView>,
}

impl View for OvsBridge {
    type V = OvsBridgeView;

    open spec fn view(&self) -> OvsBridgeView {
        OvsBridgeView { name: self.name@, uuid: self.uuid@, ports: ports_view(self.ports@) }
    }
}

impl OvsBridge {
    /// Makes a bridge without ports.
    pub fn new(name: &str, uuid: &str) -> (bridge: OvsBridge)
        ensures
            bridge@ == (OvsBridgeView { name: name@, uuid: uuid@, ports: Seq::empty() }),
    {
        let bridge = OvsBridge { name: name.to_owned(), uuid: uuid.to_owned(), ports: Vec::new() };
        assert(ports_view(bridge.ports@) =~= Seq::empty());
        bridge
    }
}

/// The bridges of a sequence, each as a mathematical value.
pub open spec fn bridges_view(bridges: Seq<OvsBridge>) -> Seq<OvsBridgeView> {
    bridges.map_values(|bridge: OvsBridge| bridge@)
}

} // verus!
