use vstd::prelude::*;
use crate::text::{NameError, lower, lowercase, lower_of, matches_folded, same_text, is_digit, digit_value};

verus! {

/// The four networks; each owns one block of a thousand ports.
#[derive(Debug, Clone, Copy, PartialEq, Eq, Structural)]
pub enum Network {
    Polkadot,
    Kusama,
    Westend,
    Paseo,
}

/// Position of a network, from 1, as it appears in ports and addresses.
pub open spec fn network_ordinal(n: Network) -> int {
    match n {
        Network::Polkadot => 1,
        Network::Kusama => 2,
        Network::Westend => 3,
        Network::Paseo => 4,
    }
}

/// The network that a name already in lower case denotes.
pub open spec fn network_of_folded(l: Seq<char>) -> Result<Network, NameError> {
    if l == "polkadot"@ {
        Ok(Network::Polkadot)
    } else if l == "kusama"@ {
        Ok(Network::Kusama)
    } else if l == "westend"@ {
        Ok(Network::Westend)
    } else if l == "paseo"@ {
        Ok(Network::Paseo)
    } else {
        Err(NameError::UnknownIdentifier)
    }
}

/// The network that a name denotes, read after Unicode lower casing.
pub open spec fn network_named(s: Seq<char>) -> Result<Network, NameError> {
    network_of_folded(lower_of(s))
}

/// Resolves a network name that is already in lower case.
pub fn network_from_folded(l: &str) -> (r: Result<Network, NameError>)
    ensures
        r == network_of_folded(l@),
{
    if same_text(l, "polkadot") {
        Ok(Network::Polkadot)
    } else if same_text(l, "kusama") {
        Ok(Network::Kusama)
    } else if same_text(l, "westend") {
        Ok(Network::Westend)
    } else if same_text(l, "paseo") {
        Ok(Network::Paseo)
    } else {
        Err(NameError::UnknownIdentifier)
    }
}

impl Network {
    /// Resolves a network name, read after Unicode lower casing.
    pub fn from_str(s: &str) -> (r: Result<Network, NameError>)
        ensures
            r == network_named(s@),
    {
        let l = lowercase(s);
        network_from_folded(l.as_str())
    }

    /// Position of the network, from 1.
    pub fn ordinal(self) -> (r: u16)
        ensures
            r as int == network_ordinal(self),
            1 <= r <= 4,
    {
        match self {
            Network::Polkadot => 1,
            Network::Kusama => 2,
            Network::Westend => 3,
            Network::Paseo => 4,
        }
    }
}


/// A resolved chain: relay (system slot 0), a system chain, or a custom chain
/// of one network. Its slot gives the hundreds digit of the port.
#[derive(Debug, Clone, Copy, PartialEq, Eq, Structural)]
pub struct ChainId {
    pub custom: bool,
    pub slot: u16,
}

/// Historical or alternate chain names, mapped to their canonical name.
pub open spec fn canonical_chain(s: Seq<char>) -> Seq<char> {
    if s == "statemine"@ || s == "statemint"@ {
        "asset-hub"@
    } else if s == "bridgehub"@ {
        "bridge-hub"@
    } else if s == "nexus"@ {
        "hyperbridge"@
    } else if s == "hydradx"@ {
        "hydration"@
    } else if s == "spiritnet"@ {
        "kilt"@
    } else {
        s
    }
}

/// The slot of a system chain; these are the same on every network.
pub open spec fn system_slot(s: Seq<char>) -> Option<u16> {
    if s == "asset-hub"@ {
        Some(1u16)
    } else if s == "bridge-hub"@ {
        Some(2u16)
    } else if s == "collectives"@ {
        Some(3u16)
    } else if s == "people"@ {
        Some(4u16)
    } else if s == "coretime"@ {
        Some(5u16)
    } else if s == "encointer"@ {
        Some(6u16)
    } else {
        None
    }
}

/// The slot of a custom chain within the custom block of network `n`.
pub open spec fn custom_slot(n: Network, s: Seq<char>) -> Option<u16> {
    match n {
        Network::Polkadot => {
            if s == "moonbeam"@ {
                Some(0u16)
            } else if s == "hyperbridge"@ {
                Some(1u16)
            } else if s == "interlay"@ {
                Some(2u16)
            } else if s == "acala"@ {
                Some(3u16)
            } else if s == "kilt"@ {
                Some(4u16)
            } else if s == "hydration"@ {
                Some(5u16)
            } else if s == "bifrost-polkadot"@ {
                Some(6u16)
            } else if s == "ajuna"@ {
                Some(7u16)
            } else if s == "polimec"@ {
                Some(8u16)
            } else if s == "unique"@ {
                Some(9u16)
            } else {
                None
            }
        },
        Network::Kusama => {
            if s == "moonriver"@ {
                Some(0u16)
            } else if s == "kintsugi"@ {
                Some(2u16)
            } else if s == "karura"@ {
                Some(3u16)
            } else if s == "bifrost-kusama"@ {
                Some(6u16)
            } else if s == "bajun"@ {
                Some(7u16)
            } else if s == "quartz"@ {
                Some(9u16)
            } else {
                None
            }
        },
        Network::Westend => None,
        Network::Paseo => {
            if s == "gargantua"@ {
                Some(1u16)
            } else {
                None
            }
        },
    }
}

/// Resolution of a chain name under network `n`: aliases first, then the
/// custom table of `n`, then the system table. No name means the relay chain.
pub open spec fn resolve_chain(chain: Option<Seq<char>>, n: Network) -> Result<ChainId, NameError> {
    match chain {
        None => Ok(ChainId { custom: false, slot: 0 }),
        Some(name) => {
            let c = canonical_chain(name);
            match custom_slot(n, c) {
                Some(k) => Ok(ChainId { custom: true, slot: k }),
                None => match system_slot(c) {
                    Some(k) => Ok(ChainId { custom: false, slot: k }),
                    None => Err(NameError::UnknownIdentifier),
                },
            }
        },
    }
}

/// The characters of an optional name.
pub open spec fn text_of(s: Option<&str>) -> Option<Seq<char>> {
    match s {
        Some(t) => Some(t@),
        None => None,
    }
}

fn canonical_name<'a>(name: &'a str) -> (r: &'a str)
    ensures
        r@ == canonical_chain(name@),
{
    if same_text(name, "statemine") || same_text(name, "statemint") {
        "asset-hub"
    } else if same_text(name, "bridgehub") {
        "bridge-hub"
    } else if same_text(name, "nexus") {
        "hyperbridge"
    } else if same_text(name, "hydradx") {
        "hydration"
    } else if same_text(name, "spiritnet") {
        "kilt"
    } else {
        name
    }
}

fn system_slot_of(name: &str) -> (r: Option<u16>)
    ensures
        r == system_slot(name@),
{
    if same_text(name, "asset-hub") {
        Some(1)
    } else if same_text(name, "bridge-hub") {
        Some(2)
    } else if same_text(name, "collectives") {
        Some(3)
    } else if same_text(name, "people") {
        Some(4)
    } else if same_text(name, "coretime") {
        Some(5)
    } else if same_text(name, "encointer") {
        Some(6)
    } else {
        None
    }
}

fn custom_slot_of(n: Network, name: &str) -> (r: Option<u16>)
    ensures
        r == custom_slot(n, name@),
{
    match n {
        Network::Polkadot => {
            if same_text(name, "moonbeam") {
                Some(0)
            } else if same_text(name, "hyperbridge") {
                Some(1)
            } else if same_text(name, "interlay") {
                Some(2)
            } else if same_text(name, "acala") {
                Some(3)
            } else if same_text(name, "kilt") {
                Some(4)
            } else if same_text(name, "hydration") {
                Some(5)
            } else if same_text(name, "bifrost-polkadot") {
                Some(6)
            } else if same_text(name, "ajuna") {
                Some(7)
            } else if same_text(name, "polimec") {
                Some(8)
            } else if same_text(name, "unique") {
                Some(9)
            } else {
                None
            }
        },
        Network::Kusama => {
            if same_text(name, "moonriver") {
                Some(0)
            } else if same_text(name, "kintsugi") {
                Some(2)
            } else if same_text(name, "karura") {
                Some(3)
            } else if same_text(name, "bifrost-kusama") {
                Some(6)
            } else if same_text(name, "bajun") {
                Some(7)
            } else if same_text(name, "quartz") {
                Some(9)
            } else {
                None
            }
        },
        Network::Westend => None,
        Network::Paseo => {
            if same_text(name, "gargantua") {
                Some(1)
            } else {
                None
            }
        },
    }
}

impl ChainId {
    /// Slots stay below ten; system chains use slots 0 to 6.
    pub open spec fn wf(self) -> bool {
        if self.custom {
            self.slot <= 9
        } else {
            self.slot <= 6
        }
    }

    /// The chain's number in addresses: its slot, or 20 more for a custom chain.
    pub open spec fn numeric_id(self) -> int {
        if self.custom {
            20 + self.slot
        } else {
            self.slot as int
        }
    }

    /// Resolves an optional chain name under `network`.
    pub fn from_str(chain: Option<&str>, network: Network) -> (r: Result<ChainId, NameError>)
        ensures
            r == resolve_chain(text_of(chain), network),
            r matches Ok(c) ==> c.wf(),
    {
        match chain {
            None => Ok(ChainId { custom: false, slot: 0 }),
            Some(name) => {
                let c = canonical_name(name);
                match custom_slot_of(network, c) {
                    Some(k) => Ok(ChainId { custom: true, slot: k }),
                    None => match system_slot_of(c) {
                        Some(k) => Ok(ChainId { custom: false, slot: k }),
                        None => Err(NameError::UnknownIdentifier),
                    },
                }
            },
        }
    }

    /// The last octet of the address: 10 for the relay chain, then one per chain.
    pub fn to_ip_host(&self) -> (r: u8)
        requires
            self.wf(),
        ensures
            r as int == 10 + self.numeric_id(),
    {
        if self.custom {
            30 + self.slot as u8
        } else {
            10 + self.slot as u8
        }
    }
}

/// A node's role with its instance number: a bootnode is instance 0, an RPC
/// node instance 1 to 3, a validator instance 1 to 6.
#[derive(Debug, Clone, Copy, PartialEq, Eq, Structural)]
pub enum Role {
    Boot,
    Rpc(u8),
    Validator(u8),
}

/// The instance of a name: exactly two decimal digits. A wrong width is out
/// of range; two characters that are not both digits are malformed.
pub open spec fn instance_named(t: Seq<char>) -> Result<int, NameError> {
    if t.len() != 2 {
        Err(NameError::OutOfRange)
    } else if !is_digit(t[0]) || !is_digit(t[1]) {
        Err(NameError::InvalidFormat)
    } else {
        Ok(10 * digit_value(t[0]) + digit_value(t[1]))
    }
}

/// The role that a role token and an instance token denote. The role is read
/// without regard to ASCII case and resolved before the instance.
pub open spec fn role_named(role: Seq<char>, instance: Seq<char>) -> Result<Role, NameError> {
    let l = lower(role);
    if l != "boot"@ && l != "rpc"@ && l != "val"@ {
        Err(NameError::UnknownIdentifier)
    } else {
        match instance_named(instance) {
            Err(e) => Err(e),
            Ok(k) => {
                if l == "boot"@ {
                    if k == 0 {
                        Ok(Role::Boot)
                    } else {
                        Err(NameError::OutOfRange)
                    }
                } else if l == "rpc"@ {
                    if 1 <= k <= 3 {
                        Ok(Role::Rpc(k as u8))
                    } else {
                        Err(NameError::OutOfRange)
                    }
                } else {
                    if 1 <= k <= 6 {
                        Ok(Role::Validator(k as u8))
                    } else {
                        Err(NameError::OutOfRange)
                    }
                }
            },
        }
    }
}

/// Tens offset of a role within a chain's hundred ports.
pub open spec fn role_offset(r: Role) -> int {
    match r {
        Role::Boot => 10,
        Role::Validator(_) => 20,
        Role::Rpc(_) => 30,
    }
}

/// The role's digit in addresses.
pub open spec fn role_ip_digit(r: Role) -> int {
    match r {
        Role::Boot => 0,
        Role::Rpc(_) => 1,
        Role::Validator(_) => 2,
    }
}

/// The instance number a role carries.
pub open spec fn instance_of(r: Role) -> int {
    match r {
        Role::Boot => 0,
        Role::Rpc(n) => n as int,
        Role::Validator(n) => n as int,
    }
}

fn two_digits(t: &str) -> (r: Result<u8, NameError>)
    ensures
        match instance_named(t@) {
            Ok(k) => r == Ok::<u8, NameError>(k as u8) && 0 <= k <= 99,
            Err(e) => r == Err::<u8, NameError>(e),
        },
{
    if t.unicode_len() != 2 {
        return Err(NameError::OutOfRange);
    }
    let hi = t.get_char(0);
    let lo = t.get_char(1);
    if !('0' <= hi && hi <= '9') || !('0' <= lo && lo <= '9') {
        return Err(NameError::InvalidFormat);
    }
    Ok(10 * (hi as u8 - 48) + (lo as u8 - 48))
}

impl Role {
    /// The instance lies in the role's range.
    pub open spec fn wf(self) -> bool {
        match self {
            Role::Boot => true,
            Role::Rpc(n) => 1 <= n <= 3,
            Role::Validator(n) => 1 <= n <= 6,
        }
    }

    /// Resolves a role token together with the node's instance token.
    pub fn from_str(role: &str, instance_str: &str) -> (r: Result<Role, NameError>)
        ensures
            r == role_named(role@, instance_str@),
            r matches Ok(x) ==> x.wf(),
    {
        let boot = matches_folded(role, "boot");
        let rpc = matches_folded(role, "rpc");
        let val = matches_folded(role, "val");
        if !boot && !rpc && !val {
            return Err(NameError::UnknownIdentifier);
        }
        let k = match two_digits(instance_str) {
            Ok(k) => k,
            Err(e) => return Err(e),
        };
        if boot {
            if k == 0 {
                Ok(Role::Boot)
            } else {
                Err(NameError::OutOfRange)
            }
        } else if rpc {
            if 1 <= k && k <= 3 {
                Ok(Role::Rpc(k))
            } else {
                Err(NameError::OutOfRange)
            }
        } else {
            if 1 <= k && k <= 6 {
                Ok(Role::Validator(k))
            } else {
                Err(NameError::OutOfRange)
            }
        }
    }

    /// The role's two low digits of the port: its tens offset plus the instance.
    pub fn to_digit(self) -> (r: u16)
        requires
            self.wf(),
        ensures
            r as int == role_offset(self) + instance_of(self),
    {
        match self {
            Role::Boot => 10,
            Role::Rpc(n) => 30 + n as u16,
            Role::Validator(n) => 20 + n as u16,
        }
    }

    /// The role's digit in addresses: 0 boot, 1 RPC, 2 validator.
    pub fn to_ip_digit(self) -> (r: u8)
        ensures
            r as int == role_ip_digit(self),
    {
        match self {
            Role::Boot => 0,
            Role::Rpc(_) => 1,
            Role::Validator(_) => 2,
        }
    }

    /// The instance number of the node.
    pub fn get_instance_number(self) -> (r: u8)
        ensures
            r as int == instance_of(self),
    {
        match self {
            Role::Boot => 0,
            Role::Rpc(n) => n,
            Role::Validator(n) => n,
        }
    }
}

} // verus!
