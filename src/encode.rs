use vstd::prelude::*;
use crate::text::NameError;
use crate::name::{NameParts, NodeName, parse_spec};
use crate::tables::{
    ChainId, Network, Role, network_named, network_ordinal, resolve_chain, role_named,
    role_offset, role_ip_digit, instance_of, text_of,
};

verus! {

/// A TCP port.
#[derive(Debug, Clone, Copy, PartialEq, Eq, Structural)]
pub struct Port(pub u16);

/// An IPv4 address, by its four octets.
#[derive(Debug, Clone, Copy, PartialEq, Eq, Structural)]
pub struct Ipv4(pub u8, pub u8, pub u8, pub u8);

/// A port together with a private IPv4 address.
#[derive(Debug, Clone, Copy, PartialEq, Eq, Structural)]
pub struct NodeAddress {
    pub port: Port,
    pub ip: Ipv4,
}

/// The thousands block of a network: custom chains live four blocks above
/// the network's own block, so they never meet its system chains.
pub open spec fn network_block(n: Network, c: ChainId) -> int {
    network_ordinal(n) + if c.custom {
        4int
    } else {
        0int
    }
}

/// The port of a resolved node: 30000, a thousand per block, a hundred per
/// chain slot, the role's tens offset and the instance.
pub open spec fn port_of(n: Network, c: ChainId, r: Role) -> int {
    30000 + 1000 * network_block(n, c) + 100 * c.slot + role_offset(r) + instance_of(r)
}

/// The address of a resolved node: `192.168.X.Y` with X the role digit, the
/// network ordinal and the instance as three decimal digits, and Y 10 more
/// than the chain's number.
pub open spec fn address_of(n: Network, c: ChainId, r: Role) -> Ipv4 {
    Ipv4(
        192u8,
        168u8,
        (100 * role_ip_digit(r) + 10 * network_ordinal(n) + instance_of(r)) as u8,
        (10 + c.numeric_id()) as u8,
    )
}

/// The fields of a name resolved, in order: network, chain, role with instance.
pub open spec fn resolve_parts(p: NameParts) -> Result<(Network, ChainId, Role), NameError> {
    match network_named(p.network) {
        Err(e) => Err(e),
        Ok(n) => match resolve_chain(p.chain, n) {
            Err(e) => Err(e),
            Ok(c) => match role_named(p.role, p.instance) {
                Err(e) => Err(e),
                Ok(r) => Ok((n, c, r)),
            },
        },
    }
}

/// A whole name resolved: split first, then each field.
pub open spec fn resolve_name(s: Seq<char>) -> Result<(Network, ChainId, Role), NameError> {
    match parse_spec(s) {
        Err(e) => Err(e),
        Ok(p) => resolve_parts(p),
    }
}

/// The port that a name gives, or why it gives none.
pub open spec fn name_port(s: Seq<char>) -> Result<Port, NameError> {
    match resolve_name(s) {
        Err(e) => Err(e),
        Ok((n, c, r)) => Ok(Port(port_of(n, c, r) as u16)),
    }
}

/// The port and address that a name gives, or why it gives none.
pub open spec fn name_address(s: Seq<char>) -> Result<NodeAddress, NameError> {
    match resolve_name(s) {
        Err(e) => Err(e),
        Ok((n, c, r)) => Ok(NodeAddress { port: Port(port_of(n, c, r) as u16), ip: address_of(n, c, r) }),
    }
}

fn resolve(s: &str) -> (r: Result<(Network, ChainId, Role), NameError>)
    ensures
        r == resolve_name(s@),
        r matches Ok((n, c, x)) ==> c.wf() && x.wf(),
{
    let node = match NodeName::parse(s) {
        Ok(node) => node,
        Err(e) => return Err(e),
    };
    let network = match Network::from_str(node.network.as_str()) {
        Ok(n) => n,
        Err(e) => return Err(e),
    };
    let chain_id = match &node.chain {
        Some(c) => {
            let name = c.as_str();
            assert(text_of(Some(name)) == node@.chain);
            ChainId::from_str(Some(name), network)
        },
        None => ChainId::from_str(None, network),
    };
    let chain_id = match chain_id {
        Ok(c) => c,
        Err(e) => return Err(e),
    };
    let role = match Role::from_str(node.role.as_str(), node.instance.as_str()) {
        Ok(r) => r,
        Err(e) => return Err(e),
    };
    Ok((network, chain_id, role))
}

fn port_from(network: Network, chain_id: ChainId, role: Role) -> (r: u16)
    requires
        chain_id.wf(),
        role.wf(),
    ensures
        r as int == port_of(network, chain_id, role),
{
    let block = if chain_id.custom {
        network.ordinal() + 4
    } else {
        network.ordinal()
    };
    30000 + 1000 * block + 100 * chain_id.slot + role.to_digit()
}

/// The port of a node name.
pub fn calculate_port(node_str: &str) -> (r: Result<Port, NameError>)
    ensures
        r == name_port(node_str@),
{
    match resolve(node_str) {
        Ok((network, chain_id, role)) => Ok(Port(port_from(network, chain_id, role))),
        Err(e) => Err(e),
    }
}

/// The port and the private address of a node name.
pub fn calculate_address(node_str: &str) -> (r: Result<NodeAddress, NameError>)
    ensures
        r == name_address(node_str@),
{
    match resolve(node_str) {
        Ok((network, chain_id, role)) => {
            let port = Port(port_from(network, chain_id, role));
            let third = role.to_ip_digit() * 100 + network.ordinal() as u8 * 10
                + role.get_instance_number();
            let fourth = chain_id.to_ip_host();
            Ok(NodeAddress { port, ip: Ipv4(192, 168, third, fourth) })
        },
        Err(e) => Err(e),
    }
}

/// What decoding a port owes: the well-formed node whose port it is, or
/// nothing where no well-formed node has that port.
pub open spec fn decodes_to(p: int, r: Option<(Network, ChainId, Role)>) -> bool {
    match r {
        Some((n, c, x)) => c.wf() && x.wf() && port_of(n, c, x) == p,
        None => forall|n: Network, c: ChainId, x: Role|
            c.wf() && x.wf() ==> #[trigger] port_of(n, c, x) != p,
    }
}

/// The decimal digits of a well-formed node's port: its block, its chain
/// slot, its role's tens offset and its instance.
pub proof fn lemma_port_digits(n: Network, c: ChainId, r: Role)
    requires
        c.wf(),
        r.wf(),
    ensures
        ({
            let p = port_of(n, c, r);
            &&& 31000 <= p < 39000
            &&& (p - 30000) / 1000 == network_block(n, c)
            &&& (p % 1000) / 100 == c.slot
            &&& (p % 100) / 10 == role_offset(r) / 10
            &&& p % 10 == instance_of(r)
        }),
{
    let p = port_of(n, c, r);
    let b = network_block(n, c);
    let s = c.slot as int;
    let low = role_offset(r) + instance_of(r);
    assert(10 <= low <= 39);
    assert(1 <= b <= 8);
    assert(p == 30000 + 1000 * b + 100 * s + low);
    assert((p - 30000) / 1000 == b) by (nonlinear_arith)
        requires
            p == 30000 + 1000 * b + 100 * s + low,
            0 <= s <= 9,
            10 <= low <= 39,
    ;
    assert(p % 1000 == 100 * s + low) by (nonlinear_arith)
        requires
            p == 30000 + 1000 * b + 100 * s + low,
            0 <= s <= 9,
            10 <= low <= 39,
    ;
    assert((100 * s + low) / 100 == s) by (nonlinear_arith)
        requires
            0 <= s <= 9,
            10 <= low <= 39,
    ;
    assert(p % 100 == low) by (nonlinear_arith)
        requires
            p == 30000 + 1000 * b + 100 * s + low,
            0 <= s <= 9,
            10 <= low <= 39,
    ;
    assert(p % 10 == low % 10) by (nonlinear_arith)
        requires
            p == 30000 + 1000 * b + 100 * s + low,
    ;
}

/// The network, chain and role that a port was made from, if it was made
/// from any.
pub fn decode_port(port: u16) -> (r: Option<(Network, ChainId, Role)>)
    ensures
        decodes_to(port as int, r),
{
    let ghost p = port as int;
    proof {
        assert forall|n: Network, c: ChainId, x: Role|
            c.wf() && x.wf() && #[trigger] port_of(n, c, x) == p implies {
            &&& 31000 <= p < 39000
            &&& (p - 30000) / 1000 == network_block(n, c)
            &&& (p % 1000) / 100 == c.slot
            &&& (p % 100) / 10 == role_offset(x) / 10
            &&& p % 10 == instance_of(x)
        } by {
            lemma_port_digits(n, c, x);
        }
    }
    if port < 31000 || port >= 39000 {
        return None;
    }
    let b = (port - 30000) / 1000;
    let chain_id = ChainId { custom: b > 4, slot: (port % 1000) / 100 };
    if chain_id.custom && chain_id.slot > 9 || !chain_id.custom && chain_id.slot > 6 {
        return None;
    }
    let network = if b == 1 || b == 5 {
        Network::Polkadot
    } else if b == 2 || b == 6 {
        Network::Kusama
    } else if b == 3 || b == 7 {
        Network::Westend
    } else {
        Network::Paseo
    };
    let tens = (port % 100) / 10;
    let unit = port % 10;
    let role = if tens == 1 && unit == 0 {
        Role::Boot
    } else if tens == 2 && 1 <= unit && unit <= 6 {
        Role::Validator(unit as u8)
    } else if tens == 3 && 1 <= unit && unit <= 3 {
        Role::Rpc(unit as u8)
    } else {
        return None;
    };
    proof {
        assert(network_block(network, chain_id) == b);
        assert(p == 30000 + 1000 * b + 100 * chain_id.slot + 10 * tens + unit) by (nonlinear_arith)
            requires
                31000 <= p < 39000,
                b == (p - 30000) / 1000,
                chain_id.slot == (p % 1000) / 100,
                tens == (p % 100) / 10,
                unit == p % 10,
        ;
    }
    Some((network, chain_id, role))
}

} // verus!
