//! What the client sends: one value for each request that carries data.

use crate::hints::{RouteHintList, RouteHopView};
use vstd::prelude::*;

verus! {

/// A query for a route to a node.
#[derive(Debug, PartialEq, Eq)]
pub struct GetrouteRequest {
    /// The public key of the destination.
    pub id: Vec<u8>,
    pub amount_msat: u64,
    pub riskfactor: u64,
    pub cltv: Option<u32>,
    pub fromid: Option<Vec<u8>>,
    pub fuzzpercent: Option<u32>,
    /// Channels and nodes that the route must avoid.
    pub exclude: Vec<String>,
    pub maxhops: Option<u32>,
}

/// A spontaneous payment: no invoice, only a destination and an amount.
#[derive(Debug, PartialEq, Eq)]
pub struct KeysendRequest {
    /// The public key of the destination.
    pub destination: Vec<u8>,
    pub amount_msat: u64,
    pub route_hints: RouteHintList,
}

pub ghost struct GetrouteRequestView {
    pub id: Seq<u8>,
    pub amount_msat: u64,
    pub riskfactor: u64,
    pub cltv: Option<u32>,
    pub fromid: Option<Seq<u8>>,
    pub fuzzpercent: Option<u32>,
    pub exclude: Seq<Seq<char>>,
    pub maxhops: Option<u32>,
}

pub ghost struct KeysendRequestView {
    pub destination: Seq<u8>,
    pub amount_msat: u64,
    pub route_hints: Seq<Seq<RouteHopView>>,
}

impl View for GetrouteRequest {
    type V = GetrouteRequestView;

    open spec fn view(&self) -> GetrouteRequestView {
        GetrouteRequestView {
            id: self.id@,
            amount_msat: self.amount_msat,
            riskfactor: self.riskfactor,
            cltv: self.cltv,
            fromid: match self.fromid {
                Some(key) => Some(key@),
                None => None,
            },
            fuzzpercent: self.fuzzpercent,
            exclude: self.exclude@.map_values(|item: String| item@),
            maxhops: self.maxhops,
        }
    }
}

impl View for KeysendRequest {
    type V = KeysendRequestView;

    open spec fn view(&self) -> KeysendRequestView {
        KeysendRequestView {
            destination: self.destination@,
            amount_msat: self.amount_msat,
            route_hints: self.route_hints@,
        }
    }
}

} // verus!
