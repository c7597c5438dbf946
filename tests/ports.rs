use portgen::tables::network_from_folded;
use portgen::{
    calculate_address, calculate_port, decode_port, ChainId, Ipv4, NameError, Network, NodeAddress,
    NodeName, Port, Role,
};

#[test]
fn relay_rpc_port() {
    assert_eq!(calculate_port("rpc-polkadot-01"), Ok(Port(31031)));
}

#[test]
fn relay_validator_port() {
    assert_eq!(calculate_port("val-kusama-01"), Ok(Port(32021)));
}

#[test]
fn system_chain_port() {
    assert_eq!(calculate_port("rpc-asset-hub-polkadot-01"), Ok(Port(31131)));
}

#[test]
fn custom_chain_port_polkadot() {
    assert_eq!(calculate_port("rpc-kilt-polkadot-01"), Ok(Port(35431)));
}

#[test]
fn custom_chain_port_kusama() {
    assert_eq!(calculate_port("rpc-karura-kusama-01"), Ok(Port(36331)));
}

#[test]
fn rpc_instance_zero_rejected() {
    assert_eq!(calculate_port("rpc-polkadot-00"), Err(NameError::OutOfRange));
}

#[test]
fn alias_matches_canonical() {
    let a = calculate_port("rpc-nexus-polkadot-01");
    let b = calculate_port("rpc-hyperbridge-polkadot-01");
    assert_eq!(a, b);
    assert_eq!(a, Ok(Port(35131)));
    assert_eq!(
        calculate_address("rpc-nexus-polkadot-01"),
        calculate_address("rpc-hyperbridge-polkadot-01")
    );
}

#[test]
fn system_alias_matches_canonical() {
    assert_eq!(calculate_port("rpc-statemine-kusama-02"), Ok(Port(32132)));
    assert_eq!(calculate_port("rpc-statemint-kusama-02"), Ok(Port(32132)));
    assert_eq!(calculate_port("rpc-asset-hub-kusama-02"), Ok(Port(32132)));
    assert_eq!(calculate_port("boot-bridgehub-paseo-00"), calculate_port("boot-bridge-hub-paseo-00"));
    assert_eq!(calculate_port("val-spiritnet-polkadot-03"), calculate_port("val-kilt-polkadot-03"));
    assert_eq!(calculate_port("val-hydradx-polkadot-03"), calculate_port("val-hydration-polkadot-03"));
}

#[test]
fn custom_chain_is_scoped_to_its_network() {
    assert_eq!(calculate_port("rpc-karura-polkadot-01"), Err(NameError::UnknownIdentifier));
    assert_eq!(calculate_port("rpc-kilt-kusama-01"), Err(NameError::UnknownIdentifier));
    assert_eq!(calculate_port("rpc-spiritnet-westend-01"), Err(NameError::UnknownIdentifier));
    assert_eq!(calculate_port("rpc-gargantua-polkadot-01"), Err(NameError::UnknownIdentifier));
    assert_eq!(calculate_port("rpc-gargantua-paseo-01"), Ok(Port(38131)));
}

#[test]
fn instance_bounds_per_role() {
    assert_eq!(calculate_port("boot-polkadot-00"), Ok(Port(31010)));
    assert_eq!(calculate_port("boot-polkadot-01"), Err(NameError::OutOfRange));
    assert_eq!(calculate_port("rpc-polkadot-03"), Ok(Port(31033)));
    assert_eq!(calculate_port("rpc-polkadot-04"), Err(NameError::OutOfRange));
    assert_eq!(calculate_port("val-polkadot-00"), Err(NameError::OutOfRange));
    assert_eq!(calculate_port("val-polkadot-06"), Ok(Port(31026)));
    assert_eq!(calculate_port("val-polkadot-07"), Err(NameError::OutOfRange));
    assert_eq!(calculate_port("val-polkadot-99"), Err(NameError::OutOfRange));
}

#[test]
fn instance_width_must_be_two() {
    assert_eq!(calculate_port("rpc-polkadot-1"), Err(NameError::OutOfRange));
    assert_eq!(calculate_port("rpc-polkadot-001"), Err(NameError::OutOfRange));
    assert_eq!(calculate_port("rpc-polkadot-"), Err(NameError::OutOfRange));
}

#[test]
fn instance_must_be_digits() {
    assert_eq!(calculate_port("rpc-polkadot-a1"), Err(NameError::InvalidFormat));
    assert_eq!(calculate_port("rpc-polkadot-+1"), Err(NameError::InvalidFormat));
}

#[test]
fn too_few_tokens() {
    assert_eq!(calculate_port("rpc-01"), Err(NameError::InvalidFormat));
    assert_eq!(calculate_port("rpc"), Err(NameError::InvalidFormat));
    assert_eq!(calculate_port(""), Err(NameError::InvalidFormat));
    assert_eq!(calculate_port(".yaml"), Err(NameError::InvalidFormat));
}

#[test]
fn unknown_identifiers() {
    assert_eq!(calculate_port("foo-polkadot-01"), Err(NameError::UnknownIdentifier));
    assert_eq!(calculate_port("rpc-mars-01"), Err(NameError::UnknownIdentifier));
    assert_eq!(calculate_port("rpc-nowhere-polkadot-01"), Err(NameError::UnknownIdentifier));
    assert_eq!(calculate_port("rpc--polkadot-01"), Err(NameError::UnknownIdentifier));
    assert_eq!(calculate_port("-polkadot-01"), Err(NameError::UnknownIdentifier));
}

#[test]
fn network_is_checked_before_chain_and_role() {
    assert_eq!(calculate_port("foo-nowhere-mars-77"), Err(NameError::UnknownIdentifier));
    assert_eq!(calculate_port("foo-polkadot-77"), Err(NameError::UnknownIdentifier));
    assert_eq!(calculate_port("rpc-nowhere-polkadot-77"), Err(NameError::UnknownIdentifier));
}

#[test]
fn yaml_suffix_is_stripped_once() {
    assert_eq!(calculate_port("rpc-polkadot-01.yaml"), Ok(Port(31031)));
    assert_eq!(calculate_port("rpc-asset-hub-polkadot-01.yaml"), Ok(Port(31131)));
    assert_eq!(calculate_port("rpc-polkadot-01.yaml.yaml"), Err(NameError::OutOfRange));
    assert_eq!(calculate_port("rpc-polkadot-01.YAML"), Err(NameError::OutOfRange));
}

#[test]
fn role_and_network_ignore_case() {
    assert_eq!(calculate_port("RPC-Polkadot-01"), Ok(Port(31031)));
    assert_eq!(calculate_port("Val-KUSAMA-02"), Ok(Port(32022)));
    assert_eq!(calculate_port("rpc-Kilt-polkadot-01"), Err(NameError::UnknownIdentifier));
}

#[test]
fn every_network_block() {
    assert_eq!(calculate_port("boot-polkadot-00"), Ok(Port(31010)));
    assert_eq!(calculate_port("boot-kusama-00"), Ok(Port(32010)));
    assert_eq!(calculate_port("boot-westend-00"), Ok(Port(33010)));
    assert_eq!(calculate_port("boot-paseo-00"), Ok(Port(34010)));
}

#[test]
fn every_system_chain_slot() {
    assert_eq!(calculate_port("rpc-asset-hub-westend-02"), Ok(Port(33132)));
    assert_eq!(calculate_port("rpc-bridge-hub-westend-02"), Ok(Port(33232)));
    assert_eq!(calculate_port("rpc-collectives-westend-02"), Ok(Port(33332)));
    assert_eq!(calculate_port("rpc-people-westend-02"), Ok(Port(33432)));
    assert_eq!(calculate_port("rpc-coretime-westend-02"), Ok(Port(33532)));
    assert_eq!(calculate_port("rpc-encointer-westend-02"), Ok(Port(33632)));
}

#[test]
fn largest_custom_ports() {
    assert_eq!(calculate_port("val-unique-polkadot-06"), Ok(Port(35926)));
    assert_eq!(calculate_port("val-quartz-kusama-06"), Ok(Port(36926)));
    assert_eq!(calculate_port("rpc-bifrost-polkadot-polkadot-03"), Ok(Port(35633)));
    assert_eq!(calculate_port("rpc-bifrost-kusama-kusama-03"), Ok(Port(36633)));
}

#[test]
fn changing_one_field_changes_the_port() {
    let base = calculate_port("rpc-people-polkadot-02").unwrap();
    for other in [
        "rpc-people-kusama-02",
        "rpc-coretime-polkadot-02",
        "rpc-polkadot-02",
        "val-people-polkadot-02",
        "rpc-people-polkadot-03",
    ] {
        assert_ne!(calculate_port(other).unwrap(), base, "{other}");
    }
}

#[test]
fn addresses() {
    assert_eq!(
        calculate_address("rpc-asset-hub-polkadot-01"),
        Ok(NodeAddress { port: Port(31131), ip: Ipv4(192, 168, 111, 11) })
    );
    assert_eq!(
        calculate_address("boot-bridge-hub-kusama-00"),
        Ok(NodeAddress { port: Port(32210), ip: Ipv4(192, 168, 20, 12) })
    );
    assert_eq!(
        calculate_address("val-people-westend-04"),
        Ok(NodeAddress { port: Port(33424), ip: Ipv4(192, 168, 234, 14) })
    );
    assert_eq!(
        calculate_address("rpc-kilt-polkadot-01"),
        Ok(NodeAddress { port: Port(35431), ip: Ipv4(192, 168, 111, 34) })
    );
    assert_eq!(calculate_address("rpc-polkadot-00"), Err(NameError::OutOfRange));
}

#[test]
fn decode_round_trip() {
    assert_eq!(
        decode_port(31031),
        Some((Network::Polkadot, ChainId { custom: false, slot: 0 }, Role::Rpc(1)))
    );
    assert_eq!(
        decode_port(32021),
        Some((Network::Kusama, ChainId { custom: false, slot: 0 }, Role::Validator(1)))
    );
    assert_eq!(
        decode_port(34010),
        Some((Network::Paseo, ChainId { custom: false, slot: 0 }, Role::Boot))
    );
    assert_eq!(
        decode_port(36331),
        Some((Network::Kusama, ChainId { custom: true, slot: 3 }, Role::Rpc(1)))
    );
    assert_eq!(decode_port(31000), None);
    assert_eq!(decode_port(31011), None);
    assert_eq!(decode_port(31034), None);
    assert_eq!(decode_port(31731), None);
    assert_eq!(decode_port(30031), None);
    assert_eq!(decode_port(39031), None);
}

#[test]
fn parse_fields() {
    let n = NodeName::parse("rpc-asset-hub-polkadot-01.yaml").unwrap();
    assert_eq!(n.role, "rpc");
    assert_eq!(n.chain, Some("asset-hub".to_string()));
    assert_eq!(n.network, "polkadot");
    assert_eq!(n.instance, "01");
    let n = NodeName::parse("val-kusama-04").unwrap();
    assert_eq!(n.chain, None);
    assert_eq!(n.network, "kusama");
    let n = NodeName::parse("a---d").unwrap();
    assert_eq!(n.role, "a");
    assert_eq!(n.chain, Some(String::new()));
    assert_eq!(n.network, "");
    assert_eq!(n.instance, "d");
    let n = NodeName::parse("a----d").unwrap();
    assert_eq!(n.chain, Some("-".to_string()));
    assert_eq!(n.network, "");
    assert_eq!(n.instance, "d");
    assert!(matches!(NodeName::parse("a-b"), Err(NameError::InvalidFormat)));
}

#[test]
fn role_resolution() {
    assert_eq!(Role::from_str("boot", "00"), Ok(Role::Boot));
    assert_eq!(Role::from_str("rpc", "02"), Ok(Role::Rpc(2)));
    assert_eq!(Role::from_str("VAL", "05"), Ok(Role::Validator(5)));
    assert_eq!(Role::from_str("validator", "05"), Err(NameError::UnknownIdentifier));
    assert_eq!(Role::from_str("rpc", "x"), Err(NameError::OutOfRange));
    assert_eq!(Role::Validator(5).to_digit(), 25);
    assert_eq!(Role::Rpc(3).to_digit(), 33);
    assert_eq!(Role::Boot.to_digit(), 10);
    assert_eq!(Role::Boot.to_ip_digit(), 0);
    assert_eq!(Role::Rpc(1).to_ip_digit(), 1);
    assert_eq!(Role::Validator(1).to_ip_digit(), 2);
    assert_eq!(Role::Validator(6).get_instance_number(), 6);
    assert_eq!(Role::Boot.get_instance_number(), 0);
}

#[test]
fn network_resolution() {
    assert_eq!(Network::from_str("westend"), Ok(Network::Westend));
    assert_eq!(Network::from_str("PaSeO"), Ok(Network::Paseo));
    assert_eq!(Network::from_str("polkadot "), Err(NameError::UnknownIdentifier));
    assert_eq!(Network::Paseo.ordinal(), 4);
}

#[test]
fn network_names_fold_unicode_case() {
    assert_eq!(Network::from_str("\u{212A}usama"), Ok(Network::Kusama));
    assert_eq!(Network::from_str("POL\u{212A}ADOT"), Ok(Network::Polkadot));
    assert_eq!(calculate_port("rpc-\u{212A}USAMA-01"), Ok(Port(32031)));
    assert_eq!(Network::from_str("polkadotcustom"), Err(NameError::UnknownIdentifier));
    assert_eq!(Network::from_str(""), Err(NameError::UnknownIdentifier));
}

#[test]
fn folded_network_names() {
    assert_eq!(network_from_folded("kusama"), Ok(Network::Kusama));
    assert_eq!(network_from_folded("paseo"), Ok(Network::Paseo));
    assert_eq!(network_from_folded("Kusama"), Err(NameError::UnknownIdentifier));
    assert_eq!(network_from_folded("\u{212A}usama"), Err(NameError::UnknownIdentifier));
}

#[test]
fn chain_resolution() {
    assert_eq!(ChainId::from_str(None, Network::Kusama), Ok(ChainId { custom: false, slot: 0 }));
    assert_eq!(
        ChainId::from_str(Some("statemine"), Network::Kusama),
        Ok(ChainId { custom: false, slot: 1 })
    );
    assert_eq!(
        ChainId::from_str(Some("moonriver"), Network::Kusama),
        Ok(ChainId { custom: true, slot: 0 })
    );
    assert_eq!(
        ChainId::from_str(Some("moonriver"), Network::Polkadot),
        Err(NameError::UnknownIdentifier)
    );
    assert_eq!(ChainId { custom: false, slot: 0 }.to_ip_host(), 10);
    assert_eq!(ChainId { custom: false, slot: 6 }.to_ip_host(), 16);
    assert_eq!(ChainId { custom: true, slot: 9 }.to_ip_host(), 39);
}
