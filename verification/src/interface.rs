//! The state of a network interface, and the addresses that the programs start
//! with.

use vstd::prelude::*;

verus! {

/// How far an interface has come in getting its address.
#[derive(Clone, Copy, Debug, PartialEq, Eq, Structural)]
pub enum InterfaceState {
    /// Nothing to send through, no network id.
    Down,
    /// Something to send through, no network id.
    Inactive,
    /// A node id, but no network id.
    ActiveLocal { node_id: u8 },
    /// A full address.
    Active { net_id: u16, node_id: u8 },
}

/// A node of the network, down to the socket.
#[derive(Clone, Copy, Debug, PartialEq, Eq, Structural)]
pub struct Address {
    pub network_id: u16,
    pub node_id: u8,
    pub port_id: u8,
}

/// The network id of the link to the root device.
pub const ROOT_NET_ID: u16 = 1;

/// The network id that stands for "this link, whatever its number".
pub const LINK_LOCAL_NET_ID: u16 = 0;

/// The node id of the far end of a point-to-point link.
///
/// Trusted: reads the constant
/// `ergot::interface_manager::profiles::direct_edge::EDGE_NODE_ID`, which is 2.
#[verifier::external_body]
fn edge_node_id() -> (node_id: u8)
    ensures
        node_id == 2,
{
    ergot::interface_manager::profiles::direct_edge::EDGE_NODE_ID
}

/// The state that the bridge gives its radio link by hand, since a broadcast
/// medium has no root that makes first contact: the edge node of the root's
/// network.
pub fn upstream_activation() -> (state: InterfaceState)
    ensures
        state == (InterfaceState::Active { net_id: ROOT_NET_ID, node_id: 2 }),
{
    InterfaceState::Active { net_id: ROOT_NET_ID, node_id: edge_node_id() }
}

/// The state that the host gives its USB link: the edge node of whatever network
/// the bridge puts the link on.
pub fn link_local_activation() -> (state: InterfaceState)
    ensures
        state == (InterfaceState::Active { net_id: LINK_LOCAL_NET_ID, node_id: 2 }),
{
    InterfaceState::Active { net_id: LINK_LOCAL_NET_ID, node_id: edge_node_id() }
}

/// The network id of an interface in `state`: there is one only where the
/// interface is known and fully active.
pub open spec fn active_net_id(state: Option<InterfaceState>) -> Option<u16> {
    match state {
        Some(InterfaceState::Active { net_id, .. }) => Some(net_id),
        _ => None,
    }
}

/// The network id under which the bridge takes frames from its radio link: that
/// of the link, or the root's where the link has none.
pub fn upstream_net_id(state: Option<InterfaceState>) -> (net_id: u16)
    ensures
        net_id == active_net_id(state).unwrap_or(ROOT_NET_ID),
        state matches Some(InterfaceState::Active { net_id: own, .. }) ==> net_id == own,
        !(state matches Some(InterfaceState::Active { .. })) ==> net_id == 1,
{
    match state {
        Some(InterfaceState::Active { net_id, .. }) => net_id,
        _ => ROOT_NET_ID,
    }
}

/// An interface has the network id that it was activated with, whatever its node
/// id.
pub proof fn has_the_net_id_it_was_given(net_id: u16, node_id: u8)
    ensures
        active_net_id(Some(InterfaceState::Active { net_id, node_id })) == Some(net_id),
{
}

/// An interface that is unknown or not fully active has no network id.
pub proof fn has_no_net_id_before(node_id: u8)
    ensures
        active_net_id(None) is None,
        active_net_id(Some(InterfaceState::Down)) is None,
        active_net_id(Some(InterfaceState::Inactive)) is None,
        active_net_id(Some(InterfaceState::ActiveLocal { node_id })) is None,
{
}

} // verus!
