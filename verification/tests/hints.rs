use cln_client::error::ClientError;
use cln_client::hints::{build_hint, HopDescriptor, RouteHint, RouteHintList, RouteHop};
use cln_client::identity::decode_identity;
use cln_client::scid::to_display;

const KEY_A: &str = "023d70f2f76d283c6c4e58109ee3a2816eb9d8feb40b23d62469060a2b2867b77f";
const KEY_B: &str = "02736e7dad83d7205826649fc17db672ce08f8e87a2b47c7785ccbf79f24e91db0";

fn hop_a() -> HopDescriptor {
    HopDescriptor {
        node_identity: KEY_A.to_string(),
        channel_id: "750452x1749x1".to_string(),
        fee_base_msat: 0,
        cltv_expiry_delta: 100,
        fee_proportional_millionths: 3000,
    }
}

fn hop_b() -> HopDescriptor {
    HopDescriptor {
        node_identity: KEY_B.to_string(),
        channel_id: to_display(1099539677185),
        fee_base_msat: 1000,
        cltv_expiry_delta: 40,
        fee_proportional_millionths: 1,
    }
}

fn decoded_a() -> RouteHop {
    RouteHop {
        node_identity: decode_identity(KEY_A).unwrap(),
        channel_id: "750452x1749x1".to_string(),
        fee_base_msat: 0,
        cltv_expiry_delta: 100,
        fee_proportional_millionths: 3000,
    }
}

fn decoded_b() -> RouteHop {
    RouteHop {
        node_identity: decode_identity(KEY_B).unwrap(),
        channel_id: "1x428x1".to_string(),
        fee_base_msat: 1000,
        cltv_expiry_delta: 40,
        fee_proportional_millionths: 1,
    }
}

#[test]
fn two_hops_make_one_hint_in_order() {
    let list = build_hint(&vec![hop_a(), hop_b()]).unwrap();
    assert_eq!(list, RouteHintList { hints: vec![RouteHint { hops: vec![decoded_a(), decoded_b()] }] });
    assert_eq!(list.hints.len(), 1);
    assert_eq!(list.hints[0].hops.len(), 2);
    assert_eq!(list.hints[0].hops[0].node_identity[1], 0x3d);
    assert_eq!(list.hints[0].hops[1].node_identity[1], 0x73);
}

#[test]
fn hops_are_not_reordered() {
    let list = build_hint(&vec![hop_b(), hop_a()]).unwrap();
    assert_eq!(list.hints[0].hops, vec![decoded_b(), decoded_a()]);
}

#[test]
fn hops_are_not_deduplicated() {
    let list = build_hint(&vec![hop_a(), hop_a(), hop_b(), hop_a()]).unwrap();
    assert_eq!(list.hints.len(), 1);
    assert_eq!(list.hints[0].hops, vec![decoded_a(), decoded_a(), decoded_b(), decoded_a()]);
}

#[test]
fn no_hops_make_one_empty_hint() {
    let list = build_hint(&vec![]).unwrap();
    assert_eq!(list, RouteHintList { hints: vec![RouteHint { hops: vec![] }] });
}

#[test]
fn channel_and_fees_are_not_checked() {
    let odd = HopDescriptor {
        node_identity: "00".to_string(),
        channel_id: "no channel at all".to_string(),
        fee_base_msat: u64::MAX,
        cltv_expiry_delta: u32::MAX,
        fee_proportional_millionths: u32::MAX,
    };
    let list = build_hint(&vec![odd]).unwrap();
    assert_eq!(list.hints[0].hops, vec![RouteHop {
        node_identity: vec![0],
        channel_id: "no channel at all".to_string(),
        fee_base_msat: u64::MAX,
        cltv_expiry_delta: u32::MAX,
        fee_proportional_millionths: u32::MAX,
    }]);
}

#[test]
fn one_bad_identity_fails_the_hint() {
    let mut bad = hop_b();
    bad.node_identity = "not-hex".to_string();
    assert_eq!(build_hint(&vec![hop_a(), bad]), Err(ClientError::InvalidIdentity));
    let mut first = hop_a();
    first.node_identity = "0g".to_string();
    assert_eq!(build_hint(&vec![first, hop_b()]), Err(ClientError::InvalidIdentity));
}
