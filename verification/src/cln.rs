//! The client: how it comes to be connected, and what it asks of the node.

use crate::connect::{
    first_phase, next_phase, pending_action, Action, Event, Phase, RetryPolicy, RETRY_DELAY_MS,
};
use crate::error::{ClientError, Operation};
use crate::hints::{build_hint, descriptors, hint_of, identities_are_hex, HopDescriptor};
use crate::identity::{decode_identity, hex_string_bytes, is_hex_string};
use crate::request::{GetrouteRequest, GetrouteRequestView, KeysendRequest, KeysendRequestView};
use vstd::prelude::*;
use vstd::string::*;

verus! {

/// The name that the node's certificate must carry. It is fixed: every
/// client checks for it, whatever address it dials.
pub const SERVER_NAME: &'static str = "cln";

/// The PEM material for mutual TLS: the authority that vouches for the
/// node, and the certificate and key by which the client is known to it.
#[derive(Debug, PartialEq, Eq)]
pub struct Creds {
    pub ca_pem: Vec<u8>,
    pub client_pem: Vec<u8>,
    pub client_key: Vec<u8>,
}

/// A client of one node. It holds what a dial needs and keeps count of the
/// attempts; the channel itself is with the caller.
#[derive(Debug, PartialEq, Eq)]
pub struct ClnRPC {
    /// What to dial: host and port, with a colon between them.
    pub target: String,
    /// The name to find in the node's certificate.
    pub server_name: String,
    pub creds: Creds,
    pub policy: RetryPolicy,
    pub phase: Phase,
}

pub ghost struct CredsView {
    pub ca_pem: Seq<u8>,
    pub client_pem: Seq<u8>,
    pub client_key: Seq<u8>,
}

pub ghost struct ClnRPCView {
    pub target: Seq<char>,
    pub server_name: Seq<char>,
    pub creds: CredsView,
    pub policy: RetryPolicy,
    pub phase: Phase,
}

impl View for Creds {
    type V = CredsView;

    open spec fn view(&self) -> CredsView {
        CredsView {
            ca_pem: self.ca_pem@,
            client_pem: self.client_pem@,
            client_key: self.client_key@,
        }
    }
}

impl View for ClnRPC {
    type V = ClnRPCView;

    open spec fn view(&self) -> ClnRPCView {
        ClnRPCView {
            target: self.target@,
            server_name: self.server_name@,
            creds: self.creds@,
            policy: self.policy,
            phase: self.phase,
        }
    }
}

/// The target to dial for a host and a port: the two as they are, with one
/// colon between them.
pub open spec fn dial_target(host: Seq<char>, port: Seq<char>) -> Seq<char> {
    host + seq![':'] + port
}

/// A client that has done nothing yet. The name that it expects of the node
/// does not depend on the host that it dials.
pub open spec fn fresh_client(
    host: Seq<char>,
    port: Seq<char>,
    creds: CredsView,
    policy: RetryPolicy,
) -> ClnRPCView {
    ClnRPCView {
        target: dial_target(host, port),
        server_name: SERVER_NAME@,
        creds,
        policy,
        phase: first_phase(policy),
    }
}

/// The route query for a destination and an amount: no risk factor, no
/// limit on hops, nothing excluded, and no other option set.
pub open spec fn route_query(id: Seq<char>, amount_msat: u64) -> GetrouteRequestView {
    GetrouteRequestView {
        id: hex_string_bytes(id),
        amount_msat,
        riskfactor: 0,
        cltv: None,
        fromid: None,
        fuzzpercent: None,
        exclude: Seq::empty(),
        maxhops: None,
    }
}

/// The spontaneous payment to a destination: the key decoded, the amount as
/// given, and one hint that holds the hops in the order given.
pub open spec fn payment(id: Seq<char>, amount_msat: u64, hops: Seq<HopDescriptor>) -> KeysendRequestView {
    KeysendRequestView {
        destination: hex_string_bytes(id),
        amount_msat,
        route_hints: seq![hint_of(descriptors(hops))],
    }
}

/// What a round trip comes to: the node's answer as it is, or the failure
/// with the name of the operation.
pub open spec fn settled<T>(operation: Operation, reply: Result<T, String>) -> Result<
    T,
    ClientError,
> {
    match reply {
        Ok(payload) => Ok(payload),
        Err(cause) => Err(ClientError::Rpc { operation, cause }),
    }
}

impl Creds {
    fn duplicate(&self) -> (r: Creds)
        ensures
            r@ == self@,
    {
        Creds {
            ca_pem: self.ca_pem.clone(),
            client_pem: self.client_pem.clone(),
            client_key: self.client_key.clone(),
        }
    }
}

fn join_target(url: &str, grpc_port: &str) -> (r: String)
    ensures
        r@ == dial_target(url@, grpc_port@),
{
    proof {
        reveal_strlit(":");
    }
    let mut r = String::from_str(url);
    r.append(":");
    r.append(grpc_port);
    r
}

impl ClnRPC {
    /// A client with the patience that `policy` gives it.
    pub fn with_policy(url: &str, grpc_port: &str, creds: &Creds, policy: RetryPolicy) -> (r: Self)
        ensures
            r@ == fresh_client(url@, grpc_port@, creds@, policy),
    {
        ClnRPC {
            target: join_target(url, grpc_port),
            server_name: String::from_str(SERVER_NAME),
            creds: creds.duplicate(),
            policy,
            phase: policy.first(),
        }
    }

    /// A client that will dial up to `i` times, waiting a second after each
    /// failure. With `i` zero it has given up before it starts.
    pub fn try_new(url: &str, grpc_port: &str, creds: &Creds, i: usize) -> (r: Self)
        ensures
            r@ == fresh_client(
                url@,
                grpc_port@,
                creds@,
                RetryPolicy::Bounded { max_attempts: i, delay_ms: RETRY_DELAY_MS },
            ),
    {
        Self::with_policy(
            url,
            grpc_port,
            creds,
            RetryPolicy::Bounded { max_attempts: i, delay_ms: RETRY_DELAY_MS },
        )
    }

    /// A client that will dial once.
    pub fn new(url: &str, grpc_port: &str, creds: &Creds) -> (r: Self)
        ensures
            r@ == fresh_client(url@, grpc_port@, creds@, RetryPolicy::Once),
    {
        Self::with_policy(url, grpc_port, creds, RetryPolicy::Once)
    }

    /// What the client asks of its caller now.
    pub fn pending(&self) -> (action: Action)
        ensures
            action == pending_action(self.phase),
    {
        self.phase.pending()
    }

    /// Takes the caller's report and says what to do next. Only the phase
    /// changes.
    pub fn step(&mut self, event: Event) -> (action: Action)
        ensures
            final(self)@ == (ClnRPCView {
                phase: next_phase(old(self).policy, old(self).phase, event),
                ..old(self)@
            }),
            action == pending_action(final(self).phase),
    {
        self.phase = self.policy.next(self.phase, event);
        self.phase.pending()
    }

    /// Closes a round trip: the node's answer goes to the caller unchanged,
    /// a failure goes with the name of the operation and its cause.
    pub fn complete<T>(operation: Operation, reply: Result<T, String>) -> (r: Result<T, ClientError>)
        ensures
            r == settled(operation, reply),
    {
        match reply {
            Ok(payload) => Ok(payload),
            Err(cause) => Err(ClientError::Rpc { operation, cause }),
        }
    }

    /// Closes the request for the node's information, which carries no data.
    pub fn get_info<T>(reply: Result<T, String>) -> (r: Result<T, ClientError>)
        ensures
            r == settled(Operation::Getinfo, reply),
    {
        Self::complete(Operation::Getinfo, reply)
    }

    /// The query for a route to the node `id`, a public key in hexadecimal,
    /// for `amount_msat`.
    pub fn get_route(id: &str, amount_msat: u64) -> (r: Result<GetrouteRequest, ClientError>)
        ensures
            is_hex_string(id@) ==> (r matches Ok(request) && request@ == route_query(
                id@,
                amount_msat,
            )),
            !is_hex_string(id@) ==> r == Err::<GetrouteRequest, ClientError>(
                ClientError::InvalidIdentity,
            ),
    {
        let destination = match decode_identity(id) {
            Ok(bytes) => bytes,
            Err(e) => {
                return Err(e);
            },
        };
        let request = GetrouteRequest {
            id: destination,
            amount_msat,
            riskfactor: 0,
            cltv: None,
            fromid: None,
            fuzzpercent: None,
            exclude: Vec::new(),
            maxhops: None,
        };
        assert(request@.exclude =~= Seq::empty());
        Ok(request)
    }

    /// The spontaneous payment of `amt` milli-units to the node `id`, a
    /// public key in hexadecimal, with one route hint made of `hops` in the
    /// order given.
    pub fn keysend_with_route_hint(id: &str, amt: u64, hops: &Vec<HopDescriptor>) -> (r: Result<
        KeysendRequest,
        ClientError,
    >)
        ensures
            is_hex_string(id@) && identities_are_hex(descriptors(hops@)) ==> (r matches Ok(request)
                && request@ == payment(id@, amt, hops@)),
            !(is_hex_string(id@) && identities_are_hex(descriptors(hops@))) ==> r == Err::<
                KeysendRequest,
                ClientError,
            >(ClientError::InvalidIdentity),
    {
        let destination = match decode_identity(id) {
            Ok(bytes) => bytes,
            Err(e) => {
                return Err(e);
            },
        };
        let route_hints = match build_hint(hops) {
            Ok(list) => list,
            Err(e) => {
                return Err(e);
            },
        };
        Ok(KeysendRequest { destination, amount_msat: amt, route_hints })
    }
}

} // verus!
