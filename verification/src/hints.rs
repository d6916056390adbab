//! Route hints: the hops that a payment is told to take on its last leg,
//! because the public graph does not show them.

use crate::error::ClientError;
use crate::identity::{decode_identity, hex_string_bytes, is_hex_string};
use vstd::prelude::*;

verus! {

/// One hop as the caller describes it, the node's key still in hexadecimal.
#[derive(Debug, PartialEq, Eq)]
pub struct HopDescriptor {
    /// The public key of the node that the hop leads to, in hexadecimal.
    pub node_identity: String,
    /// The channel to take, written `block x tx x output`.
    pub channel_id: String,
    pub fee_base_msat: u64,
    pub cltv_expiry_delta: u32,
    pub fee_proportional_millionths: u32,
}

/// One hop as the node is given it.
#[derive(Debug, PartialEq, Eq)]
pub struct RouteHop {
    /// The public key of the node that the hop leads to.
    pub node_identity: Vec<u8>,
    /// The channel to take, written `block x tx x output`.
    pub channel_id: String,
    pub fee_base_msat: u64,
    pub cltv_expiry_delta: u32,
    pub fee_proportional_millionths: u32,
}

/// A forced path: the first hop is the one nearest the payer, the last one
/// leads to the node just before the destination.
#[derive(Debug, PartialEq, Eq)]
pub struct RouteHint {
    pub hops: Vec<RouteHop>,
}

/// The hints that one payment carries.
#[derive(Debug, PartialEq, Eq)]
pub struct RouteHintList {
    pub hints: Vec<RouteHint>,
}

pub ghost struct HopDescriptorView {
    pub node_identity: Seq<char>,
    pub channel_id: Seq<char>,
    pub fee_base_msat: u64,
    pub cltv_expiry_delta: u32,
    pub fee_proportional_millionths: u32,
}

pub ghost struct RouteHopView {
    pub node_identity: Seq<u8>,
    pub channel_id: Seq<char>,
    pub fee_base_msat: u64,
    pub cltv_expiry_delta: u32,
    pub fee_proportional_millionths: u32,
}

impl View for HopDescriptor {
    type V = HopDescriptorView;

    open spec fn view(&self) -> HopDescriptorView {
        HopDescriptorView {
            node_identity: self.node_identity@,
            channel_id: self.channel_id@,
            fee_base_msat: self.fee_base_msat,
            cltv_expiry_delta: self.cltv_expiry_delta,
            fee_proportional_millionths: self.fee_proportional_millionths,
        }
    }
}

impl View for RouteHop {
    type V = RouteHopView;

    open spec fn view(&self) -> RouteHopView {
        RouteHopView {
            node_identity: self.node_identity@,
            channel_id: self.channel_id@,
            fee_base_msat: self.fee_base_msat,
            cltv_expiry_delta: self.cltv_expiry_delta,
            fee_proportional_millionths: self.fee_proportional_millionths,
        }
    }
}

impl View for RouteHint {
    type V = Seq<RouteHopView>;

    open spec fn view(&self) -> Seq<RouteHopView> {
        self.hops@.map_values(|hop: RouteHop| hop@)
    }
}

impl View for RouteHintList {
    type V = Seq<Seq<RouteHopView>>;

    open spec fn view(&self) -> Seq<Seq<RouteHopView>> {
        self.hints@.map_values(|hint: RouteHint| hint@)
    }
}

/// The hops of a list as plain values, in the order given.
pub open spec fn descriptors(hops: Seq<HopDescriptor>) -> Seq<HopDescriptorView> {
    hops.map_values(|hop: HopDescriptor| hop@)
}

/// Whether every hop names its node by a well-formed identity.
pub open spec fn identities_are_hex(hops: Seq<HopDescriptorView>) -> bool {
    forall|i: int| 0 <= i < hops.len() ==> is_hex_string(#[trigger] hops[i].node_identity)
}

/// The hop that the node is given for `hop`: the key decoded, all else as it is.
pub open spec fn decoded_hop(hop: HopDescriptorView) -> RouteHopView {
    RouteHopView {
        node_identity: hex_string_bytes(hop.node_identity),
        channel_id: hop.channel_id,
        fee_base_msat: hop.fee_base_msat,
        cltv_expiry_delta: hop.cltv_expiry_delta,
        fee_proportional_millionths: hop.fee_proportional_millionths,
    }
}

/// The one hint that `hops` make up: every hop decoded, none dropped, none
/// moved.
pub open spec fn hint_of(hops: Seq<HopDescriptorView>) -> Seq<RouteHopView> {
    hops.map_values(|hop: HopDescriptorView| decoded_hop(hop))
}

/// Assembles `hops` into a list of exactly one hint, whose hops are those
/// given, in the order given. Nothing is checked but the identities: whether
/// the hops connect, and whether their channels and fees make sense, is for
/// the node to say when it pays.
pub fn build_hint(hops: &Vec<HopDescriptor>) -> (r: Result<RouteHintList, ClientError>)
    ensures
        identities_are_hex(descriptors(hops@)) ==> (r matches Ok(list) && list@ == seq![
            hint_of(descriptors(hops@)),
        ]),
        !identities_are_hex(descriptors(hops@)) ==> r == Err::<RouteHintList, ClientError>(
            ClientError::InvalidIdentity,
        ),
{
    let ghost given = descriptors(hops@);
    let mut decoded: Vec<RouteHop> = Vec::new();
    let mut i: usize = 0;
    while i < hops.len()
        invariant
            i <= hops.len(),
            given == descriptors(hops@),
            decoded.len() == i,
            forall|k: int| 0 <= k < i ==> is_hex_string(#[trigger] given[k].node_identity),
            forall|k: int| 0 <= k < i ==> (#[trigger] decoded[k])@ == decoded_hop(given[k]),
        decreases hops.len() - i,
    {
        let hop = &hops[i];
        match decode_identity(hop.node_identity.as_str()) {
            Ok(node_identity) => {
                decoded.push(
                    RouteHop {
                        node_identity,
                        channel_id: hop.channel_id.clone(),
                        fee_base_msat: hop.fee_base_msat,
                        cltv_expiry_delta: hop.cltv_expiry_delta,
                        fee_proportional_millionths: hop.fee_proportional_millionths,
                    },
                );
            },
            Err(e) => {
                assert(!is_hex_string(given[i as int].node_identity));
                return Err(e);
            },
        }
        i += 1;
    }
    let hint = RouteHint { hops: decoded };
    assert(hint@ =~= hint_of(given));
    let mut hints: Vec<RouteHint> = Vec::new();
    hints.push(hint);
    let list = RouteHintList { hints };
    Ok(list)
}

} // verus!
