use vstd::prelude::*;
use crate::text::{NameError, lower};
use crate::name::parse_spec;
use crate::tables::{ChainId, Network, Role, canonical_chain, custom_slot, system_slot, resolve_chain,
    instance_named, role_named};
use crate::encode::{address_of, decodes_to, lemma_port_digits, name_address, name_port, port_of};

verus! {

/// Decoding the port of any well-formed node gives that node back: every
/// result that `decode_port` may return on that port is that node.
pub proof fn lemma_decode_port_of(n: Network, c: ChainId, r: Role, decoded: Option<(Network, ChainId, Role)>)
    requires
        c.wf(),
        r.wf(),
        decodes_to(port_of(n, c, r), decoded),
    ensures
        decoded == Some((n, c, r)),
{
    match decoded {
        None => {
            assert(port_of(n, c, r) != port_of(n, c, r));
        },
        Some((n2, c2, r2)) => {
            if (n2, c2, r2) != (n, c, r) {
                lemma_distinct_nodes(n, c, r, n2, c2, r2);
            }
        },
    }
}

/// Two different well-formed nodes never share a port, nor an address.
pub proof fn lemma_distinct_nodes(n1: Network, c1: ChainId, r1: Role, n2: Network, c2: ChainId, r2: Role)
    requires
        c1.wf(),
        r1.wf(),
        c2.wf(),
        r2.wf(),
        (n1, c1, r1) != (n2, c2, r2),
    ensures
        port_of(n1, c1, r1) != port_of(n2, c2, r2),
        address_of(n1, c1, r1) != address_of(n2, c2, r2),
{
    lemma_port_digits(n1, c1, r1);
    lemma_port_digits(n2, c2, r2);
}

/// A name in the custom table of some network is no system chain.
proof fn lemma_custom_not_system(n: Network, s: Seq<char>)
    requires
        custom_slot(n, s) is Some,
    ensures
        system_slot(s) is None,
{
    // Every custom name differs from every system name in its length or in
    // its first character.
    reveal_strlit("asset-hub");
    assert("asset-hub"@.len() == 9 && "asset-hub"@[0] == 'a');
    reveal_strlit("bridge-hub");
    assert("bridge-hub"@.len() == 10 && "bridge-hub"@[0] == 'b');
    reveal_strlit("collectives");
    assert("collectives"@.len() == 11 && "collectives"@[0] == 'c');
    reveal_strlit("people");
    assert("people"@.len() == 6 && "people"@[0] == 'p');
    reveal_strlit("coretime");
    assert("coretime"@.len() == 8 && "coretime"@[0] == 'c');
    reveal_strlit("encointer");
    assert("encointer"@.len() == 9 && "encointer"@[0] == 'e');
    reveal_strlit("moonbeam");
    assert("moonbeam"@.len() == 8 && "moonbeam"@[0] == 'm');
    reveal_strlit("hyperbridge");
    assert("hyperbridge"@.len() == 11 && "hyperbridge"@[0] == 'h');
    reveal_strlit("interlay");
    assert("interlay"@.len() == 8 && "interlay"@[0] == 'i');
    reveal_strlit("acala");
    assert("acala"@.len() == 5 && "acala"@[0] == 'a');
    reveal_strlit("kilt");
    assert("kilt"@.len() == 4 && "kilt"@[0] == 'k');
    reveal_strlit("hydration");
    assert("hydration"@.len() == 9 && "hydration"@[0] == 'h');
    reveal_strlit("bifrost-polkadot");
    assert("bifrost-polkadot"@.len() == 16 && "bifrost-polkadot"@[0] == 'b');
    reveal_strlit("ajuna");
    assert("ajuna"@.len() == 5 && "ajuna"@[0] == 'a');
    reveal_strlit("polimec");
    assert("polimec"@.len() == 7 && "polimec"@[0] == 'p');
    reveal_strlit("unique");
    assert("unique"@.len() == 6 && "unique"@[0] == 'u');
    reveal_strlit("moonriver");
    assert("moonriver"@.len() == 9 && "moonriver"@[0] == 'm');
    reveal_strlit("kintsugi");
    assert("kintsugi"@.len() == 8 && "kintsugi"@[0] == 'k');
    reveal_strlit("karura");
    assert("karura"@.len() == 6 && "karura"@[0] == 'k');
    reveal_strlit("bifrost-kusama");
    assert("bifrost-kusama"@.len() == 14 && "bifrost-kusama"@[0] == 'b');
    reveal_strlit("bajun");
    assert("bajun"@.len() == 5 && "bajun"@[0] == 'b');
    reveal_strlit("quartz");
    assert("quartz"@.len() == 6 && "quartz"@[0] == 'q');
    reveal_strlit("gargantua");
    assert("gargantua"@.len() == 9 && "gargantua"@[0] == 'g');
}

/// A custom chain name is refused under a network whose custom table does
/// not list it, whatever other network lists it.
pub proof fn lemma_custom_chain_scoped(name: Seq<char>, a: Network, b: Network)
    requires
        custom_slot(a, canonical_chain(name)) is Some,
        custom_slot(b, canonical_chain(name)) is None,
    ensures
        resolve_chain(Some(name), b) == Err::<ChainId, NameError>(NameError::UnknownIdentifier),
{
    lemma_custom_not_system(a, canonical_chain(name));
}

/// Canonical chain names are no aliases themselves.
proof fn lemma_canonical_is_fixed(s: Seq<char>)
    ensures
        canonical_chain(canonical_chain(s)) == canonical_chain(s),
{
    // Canonical names differ from the aliases in length or first character.
    reveal_strlit("statemine");
    assert("statemine"@.len() == 9 && "statemine"@[0] == 's');
    reveal_strlit("statemint");
    assert("statemint"@.len() == 9 && "statemint"@[0] == 's');
    reveal_strlit("bridgehub");
    assert("bridgehub"@.len() == 9 && "bridgehub"@[0] == 'b');
    reveal_strlit("nexus");
    assert("nexus"@.len() == 5 && "nexus"@[0] == 'n');
    reveal_strlit("hydradx");
    assert("hydradx"@.len() == 7 && "hydradx"@[0] == 'h');
    reveal_strlit("spiritnet");
    assert("spiritnet"@.len() == 9 && "spiritnet"@[0] == 's');
    reveal_strlit("asset-hub");
    assert("asset-hub"@.len() == 9 && "asset-hub"@[0] == 'a');
    reveal_strlit("bridge-hub");
    assert("bridge-hub"@.len() == 10 && "bridge-hub"@[0] == 'b');
    reveal_strlit("hyperbridge");
    assert("hyperbridge"@.len() == 11 && "hyperbridge"@[0] == 'h');
    reveal_strlit("hydration");
    assert("hydration"@.len() == 9 && "hydration"@[0] == 'h');
    reveal_strlit("kilt");
    assert("kilt"@.len() == 4 && "kilt"@[0] == 'k');
}

/// Two names that differ only in that one names a chain by an alias and the
/// other by the canonical name the alias stands for give the same port and
/// the same address, or fail alike.
pub proof fn lemma_alias_resolves_alike(alias_name: Seq<char>, canonical_name: Seq<char>)
    requires
        parse_spec(alias_name) is Ok,
        parse_spec(canonical_name) is Ok,
        ({
            let a = parse_spec(alias_name)->Ok_0;
            let c = parse_spec(canonical_name)->Ok_0;
            &&& a.role == c.role
            &&& a.network == c.network
            &&& a.instance == c.instance
            &&& a.chain is Some
            &&& c.chain == Some(canonical_chain(a.chain->Some_0))
        }),
    ensures
        name_port(alias_name) == name_port(canonical_name),
        name_address(alias_name) == name_address(canonical_name),
{
    lemma_canonical_is_fixed(parse_spec(alias_name)->Ok_0.chain->Some_0);
}

/// Instance 0 is refused for RPC nodes and validators, and an instance above
/// a role's largest (0 for a bootnode, 3 for RPC, 6 for a validator) is
/// refused for that role.
pub proof fn lemma_instance_bounds(role: Seq<char>, instance: Seq<char>)
    requires
        instance_named(instance) is Ok,
    ensures
        ({
            let k = instance_named(instance)->Ok_0;
            let refused = role_named(role, instance) == Err::<Role, NameError>(NameError::OutOfRange);
            &&& (lower(role) == "rpc"@ || lower(role) == "val"@) && k == 0 ==> refused
            &&& lower(role) == "boot"@ && k > 0 ==> refused
            &&& lower(role) == "rpc"@ && k > 3 ==> refused
            &&& lower(role) == "val"@ && k > 6 ==> refused
        }),
{
    reveal_strlit("boot");
    reveal_strlit("rpc");
    reveal_strlit("val");
    assert("boot"@.len() == 4 && "rpc"@[0] == 'r' && "val"@[0] == 'v');
}

} // verus!
