use cln_client::amount::sat_to_msat;
use cln_client::cln::ClnRPC;
use cln_client::error::{ClientError, Operation};
use cln_client::hints::{HopDescriptor, RouteHint, RouteHintList, RouteHop};
use cln_client::identity::decode_identity;
use cln_client::request::{GetrouteRequest, KeysendRequest};
use cln_client::scid::to_display;

const DESTINATION: &str = "02e2b4a7836574e9504e86131ddb56f105feba1ebef2151684ccfbabf0114a1c77";
const FIRST_HOP: &str = "023d70f2f76d283c6c4e58109ee3a2816eb9d8feb40b23d62469060a2b2867b77f";
const LAST_HOP: &str = "02736e7dad83d7205826649fc17db672ce08f8e87a2b47c7785ccbf79f24e91db0";

fn two_hops() -> Vec<HopDescriptor> {
    vec![
        HopDescriptor {
            node_identity: FIRST_HOP.to_string(),
            channel_id: "750452x1749x1".to_string(),
            fee_base_msat: 0,
            cltv_expiry_delta: 100,
            fee_proportional_millionths: 3000,
        },
        HopDescriptor {
            node_identity: LAST_HOP.to_string(),
            channel_id: to_display(1099539677185),
            fee_base_msat: 1000,
            cltv_expiry_delta: 40,
            fee_proportional_millionths: 1,
        },
    ]
}

#[derive(Debug, Clone, PartialEq)]
struct Info {
    alias: String,
    blockheight: u32,
}

#[derive(Debug, Clone, PartialEq)]
struct Paid {
    payment_hash: Vec<u8>,
    amount_sent_msat: u64,
}

/// A node that answers every request with a fixed payload and keeps what
/// it was sent.
struct MockNode {
    routes_asked: Vec<GetrouteRequest>,
    payments_asked: Vec<KeysendRequest>,
}

impl MockNode {
    fn new() -> Self {
        MockNode { routes_asked: vec![], payments_asked: vec![] }
    }

    fn info() -> Info {
        Info { alias: "mock".to_string(), blockheight: 750452 }
    }

    fn paid() -> Paid {
        Paid { payment_hash: vec![7; 32], amount_sent_msat: 123456 }
    }

    fn getinfo(&mut self) -> Result<Info, String> {
        Ok(Self::info())
    }

    fn get_route(&mut self, request: GetrouteRequest) -> Result<Vec<u8>, String> {
        let first = request.id[0];
        self.routes_asked.push(request);
        Ok(vec![first])
    }

    fn key_send(&mut self, request: KeysendRequest) -> Result<Paid, String> {
        self.payments_asked.push(request);
        Ok(Self::paid())
    }
}

#[test]
fn route_to_what_is_no_hex_is_refused() {
    assert_eq!(ClnRPC::get_route("not-hex", 1000), Err(ClientError::InvalidIdentity));
    assert_eq!(ClnRPC::get_route("not-hex!", 1000), Err(ClientError::InvalidIdentity));
    assert_eq!(ClnRPC::get_route("02f", 1000), Err(ClientError::InvalidIdentity));
}

#[test]
fn route_to_a_valid_key_reaches_the_node() {
    let id = format!("02{}", "00".repeat(32));
    let request = ClnRPC::get_route(&id, 1000).unwrap();
    let mut key = vec![0u8; 33];
    key[0] = 2;
    assert_eq!(request.id, key);
    let mut node = MockNode::new();
    assert_eq!(ClnRPC::complete(Operation::Getroute, node.get_route(request)), Ok(vec![2]));
    assert_eq!(node.routes_asked.len(), 1);
    assert_eq!(node.routes_asked[0].amount_msat, 1000);
}

#[test]
fn route_query_sets_nothing_but_key_and_amount() {
    assert_eq!(
        ClnRPC::get_route(LAST_HOP, 5000),
        Ok(GetrouteRequest {
            id: decode_identity(LAST_HOP).unwrap(),
            amount_msat: 5000,
            riskfactor: 0,
            cltv: None,
            fromid: None,
            fuzzpercent: None,
            exclude: vec![],
            maxhops: None,
        })
    );
}

#[test]
fn cli_amount_reaches_the_query_in_milli_units() {
    let amount_msat = sat_to_msat(5).unwrap();
    let request = ClnRPC::get_route(LAST_HOP, amount_msat).unwrap();
    assert_eq!(request.amount_msat, 5000);
    let request = ClnRPC::keysend_with_route_hint(DESTINATION, amount_msat, &two_hops()).unwrap();
    assert_eq!(request.amount_msat, 5000);
}

#[test]
fn keysend_carries_destination_amount_and_hint() {
    let request = ClnRPC::keysend_with_route_hint(DESTINATION, 123000, &two_hops()).unwrap();
    assert_eq!(
        request,
        KeysendRequest {
            destination: decode_identity(DESTINATION).unwrap(),
            amount_msat: 123000,
            route_hints: RouteHintList {
                hints: vec![RouteHint {
                    hops: vec![
                        RouteHop {
                            node_identity: decode_identity(FIRST_HOP).unwrap(),
                            channel_id: "750452x1749x1".to_string(),
                            fee_base_msat: 0,
                            cltv_expiry_delta: 100,
                            fee_proportional_millionths: 3000,
                        },
                        RouteHop {
                            node_identity: decode_identity(LAST_HOP).unwrap(),
                            channel_id: "1x428x1".to_string(),
                            fee_base_msat: 1000,
                            cltv_expiry_delta: 40,
                            fee_proportional_millionths: 1,
                        },
                    ],
                }],
            },
        }
    );
    assert_eq!(request.destination.len(), 33);
    assert_eq!(request.destination[0], 0x02);
    assert_eq!(request.destination[32], 0x77);
}

#[test]
fn keysend_with_a_bad_key_is_refused() {
    assert_eq!(
        ClnRPC::keysend_with_route_hint("not-hex", 1, &two_hops()),
        Err(ClientError::InvalidIdentity)
    );
    let mut hops = two_hops();
    hops[1].node_identity = "02736e7".to_string();
    assert_eq!(
        ClnRPC::keysend_with_route_hint(DESTINATION, 1, &hops),
        Err(ClientError::InvalidIdentity)
    );
    hops[1].node_identity = "0273zz".to_string();
    assert_eq!(
        ClnRPC::keysend_with_route_hint(DESTINATION, 1, &hops),
        Err(ClientError::InvalidIdentity)
    );
}

#[test]
fn keysend_without_hops_carries_one_empty_hint() {
    let request = ClnRPC::keysend_with_route_hint(DESTINATION, 1, &vec![]).unwrap();
    assert_eq!(request.route_hints, RouteHintList { hints: vec![RouteHint { hops: vec![] }] });
}

#[test]
fn answers_pass_through_unchanged() {
    assert_eq!(ClnRPC::get_info(Ok::<Info, String>(MockNode::info())), Ok(MockNode::info()));
    assert_eq!(
        ClnRPC::complete(Operation::Keysend, Ok::<Paid, String>(MockNode::paid())),
        Ok(MockNode::paid())
    );
    assert_eq!(ClnRPC::complete(Operation::Getroute, Ok::<u8, String>(9)), Ok(9));
}

#[test]
fn failures_name_the_operation() {
    assert_eq!(
        ClnRPC::get_info(Err::<Info, String>("unavailable".to_string())),
        Err(ClientError::Rpc { operation: Operation::Getinfo, cause: "unavailable".to_string() })
    );
    assert_eq!(
        ClnRPC::complete(Operation::Getroute, Err::<Info, String>("no route".to_string())),
        Err(ClientError::Rpc { operation: Operation::Getroute, cause: "no route".to_string() })
    );
    assert_eq!(
        ClnRPC::complete(Operation::Keysend, Err::<Paid, String>("too little".to_string())),
        Err(ClientError::Rpc { operation: Operation::Keysend, cause: "too little".to_string() })
    );
}

#[test]
fn mock_node_end_to_end() {
    let mut node = MockNode::new();

    let info = ClnRPC::get_info(node.getinfo());
    assert_eq!(info, Ok(MockNode::info()));

    let request = ClnRPC::keysend_with_route_hint(DESTINATION, 5000, &two_hops()).unwrap();
    let paid = ClnRPC::complete(Operation::Keysend, node.key_send(request));
    assert_eq!(paid, Ok(MockNode::paid()));

    assert_eq!(node.payments_asked.len(), 1);
    let seen = &node.payments_asked[0];
    assert_eq!(seen.destination, decode_identity(DESTINATION).unwrap());
    assert_eq!(seen.amount_msat, 5000);
    assert_eq!(seen.route_hints.hints.len(), 1);
    let hops = &seen.route_hints.hints[0].hops;
    assert_eq!(hops.len(), 2);
    assert_eq!(hops[0].node_identity, decode_identity(FIRST_HOP).unwrap());
    assert_eq!(hops[0].channel_id, "750452x1749x1");
    assert_eq!(hops[0].fee_base_msat, 0);
    assert_eq!(hops[0].cltv_expiry_delta, 100);
    assert_eq!(hops[0].fee_proportional_millionths, 3000);
    assert_eq!(hops[1].node_identity, decode_identity(LAST_HOP).unwrap());
    assert_eq!(hops[1].channel_id, "1x428x1");
    assert_eq!(hops[1].fee_base_msat, 1000);
    assert_eq!(hops[1].cltv_expiry_delta, 40);
    assert_eq!(hops[1].fee_proportional_millionths, 1);
}
