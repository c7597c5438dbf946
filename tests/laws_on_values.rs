use portgen::{calculate_address, calculate_port, decode_port, ChainId, Network, Role};

#[test]
fn relay_tuples_decode_to_themselves() {
    let networks = [Network::Polkadot, Network::Kusama, Network::Westend, Network::Paseo];
    let roles = [
        Role::Boot,
        Role::Rpc(1),
        Role::Rpc(2),
        Role::Rpc(3),
        Role::Validator(1),
        Role::Validator(6),
    ];
    let relay = ChainId { custom: false, slot: 0 };
    for n in networks {
        for r in roles {
            let port = 30000 + 1000 * n.ordinal() + r.to_digit();
            assert_eq!(decode_port(port), Some((n, relay, r)));
        }
    }
}

#[test]
fn distinct_names_give_distinct_ports_and_addresses() {
    let names = [
        "boot-polkadot-00",
        "rpc-polkadot-01",
        "val-polkadot-01",
        "rpc-kusama-01",
        "rpc-asset-hub-polkadot-01",
        "rpc-moonbeam-polkadot-01",
        "rpc-moonriver-kusama-01",
        "rpc-kilt-polkadot-01",
        "val-kilt-polkadot-01",
        "rpc-kilt-polkadot-02",
        "rpc-people-paseo-03",
        "rpc-gargantua-paseo-03",
    ];
    for (i, a) in names.iter().enumerate() {
        for b in names.iter().skip(i + 1) {
            assert_ne!(calculate_port(a), calculate_port(b), "{a} {b}");
            let (x, y) = (calculate_address(a).unwrap(), calculate_address(b).unwrap());
            assert_ne!(x.ip, y.ip, "{a} {b}");
        }
    }
}
