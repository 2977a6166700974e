//! IP networks and addresses.
//!
//! Network ranges are checked with the `ipnetwork` crate, which refuses a
//! prefix that is longer than the address.
use vstd::prelude::*;

use super::{nonnull_message, unexpected_nonnull_type};
use crate::bindings as sql;
use crate::driver::{TypeInfo, Value};

verus! {

/// An IP network range: an address and the length of its network prefix.
#[derive(Clone, Copy, Debug, PartialEq, Eq, Structural)]
pub enum IpNet {
    V4 { addr: u32, prefix: u8 },
    V6 { addr: u128, prefix: u8 },
}

/// An IP address.
#[derive(Clone, Copy, Debug, PartialEq, Eq, Structural)]
pub enum IpAddress {
    V4(u32),
    V6(u128),
}

impl IpNet {
    /// Whether the prefix fits the address.
    pub open spec fn valid(self) -> bool {
        match self {
            IpNet::V4 { prefix, .. } => prefix <= 32,
            IpNet::V6 { prefix, .. } => prefix <= 128,
        }
    }
}

/// The message that `ipnetwork` gives for a prefix longer than the address.
pub open spec fn invalid_prefix_message() -> Seq<char> {
    "invalid prefix"@
}

/// The message given when a network with more than one address is read as
/// an address.
pub open spec fn multiple_addresses_message() -> Seq<char> {
    "attempted to decode an IpAddr from a ip network containing multiple addresses"@
}

/// The IPv4 network with the given address bits and prefix, made by
/// `ipnetwork::Ipv4Network::new`, which refuses a prefix larger than 32 with
/// `IpNetworkError::InvalidPrefix` (whose message is "invalid prefix") and
/// otherwise keeps the address and prefix as given.
#[verifier::external_body]
fn ipv4_network(addr: u32, prefix: u8) -> (net: Result<IpNet, String>)
    ensures
        net is Ok <==> prefix <= 32,
        net matches Ok(n) ==> n == (IpNet::V4 { addr, prefix }),
        net matches Err(m) ==> m@ == invalid_prefix_message(),
{
    match ipnetwork::Ipv4Network::new(addr.into(), prefix) {
        Ok(n) => Ok(IpNet::V4 { addr: n.ip().to_bits(), prefix: n.prefix() }),
        Err(e) => Err(e.to_string()),
    }
}

/// The IPv6 network with the given address bits and prefix, made by
/// `ipnetwork::Ipv6Network::new`, which refuses a prefix larger than 128 with
/// `IpNetworkError::InvalidPrefix` (whose message is "invalid prefix") and
/// otherwise keeps the address and prefix as given.
#[verifier::external_body]
fn ipv6_network(addr: u128, prefix: u8) -> (net: Result<IpNet, String>)
    ensures
        net is Ok <==> prefix <= 128,
        net matches Ok(n) ==> n == (IpNet::V6 { addr, prefix }),
        net matches Err(m) ==> m@ == invalid_prefix_message(),
{
    match ipnetwork::Ipv6Network::new(addr.into(), prefix) {
        Ok(n) => Ok(IpNet::V6 { addr: n.ip().to_bits(), prefix: n.prefix() }),
        Err(e) => Err(e.to_string()),
    }
}

/// The low and high 64 bits of a 128-bit address.
pub open spec fn split_bits(bits: u128) -> (u64, u64) {
    (bits as u64, (bits >> 64) as u64)
}

/// The 128-bit address with the given low and high 64 bits.
pub open spec fn join_bits(lo: u64, hi: u64) -> u128 {
    (lo as u128) | ((hi as u128) << 64)
}

/// Splitting an address and joining the halves gives it back, and the other
/// way round.
pub proof fn lemma_bits_roundtrip(bits: u128, lo: u64, hi: u64)
    ensures
        join_bits(split_bits(bits).0, split_bits(bits).1) == bits,
        split_bits(join_bits(lo, hi)) == (lo, hi),
{
    assert(((bits as u64) as u128) | ((((bits >> 64) as u64) as u128) << 64) == bits)
        by (bit_vector);
    assert((((lo as u128) | ((hi as u128) << 64)) as u64) == lo) by (bit_vector);
    assert(((((lo as u128) | ((hi as u128) << 64)) >> 64) as u64) == hi) by (bit_vector);
}

/// The low half of an address is its remainder by 2^64 and the high half its
/// quotient, so that joining halves weighs the high one by 2^64.
pub proof fn lemma_split_is_div_mod(bits: u128, lo: u64, hi: u64)
    ensures
        split_bits(bits).0 == bits % 0x1_0000_0000_0000_0000,
        split_bits(bits).1 == bits / 0x1_0000_0000_0000_0000,
        join_bits(lo, hi) == hi * 0x1_0000_0000_0000_0000 + lo,
{
    assert((bits as u64) == bits % 0x1_0000_0000_0000_0000) by (bit_vector);
    assert(((bits >> 64) as u64) == bits / 0x1_0000_0000_0000_0000) by (bit_vector);
    assert(((lo as u128) | ((hi as u128) << 64)) == (hi as u128) * 0x1_0000_0000_0000_0000
        + (lo as u128)) by (bit_vector);
}

/// The network as the runtime takes it.
pub open spec fn spec_to_wire(net: IpNet) -> sql::IpNetwork {
    match net {
        IpNet::V4 { addr, prefix } => sql::IpNetwork::V4(sql::Ipv4Network { addr, prefix }),
        IpNet::V6 { addr, prefix } => sql::IpNetwork::V6(
            sql::Ipv6Network { addr: split_bits(addr), prefix },
        ),
    }
}

/// The network that the runtime's network stands for, if its prefix fits.
pub open spec fn spec_from_wire(wire: sql::IpNetwork) -> Option<IpNet> {
    match wire {
        sql::IpNetwork::V4(v4) => if v4.prefix <= 32 {
            Some(IpNet::V4 { addr: v4.addr, prefix: v4.prefix })
        } else {
            None
        },
        sql::IpNetwork::V6(v6) => if v6.prefix <= 128 {
            Some(IpNet::V6 { addr: join_bits(v6.addr.0, v6.addr.1), prefix: v6.prefix })
        } else {
            None
        },
    }
}

/// Converting a network to the runtime's form and back gives it back; a
/// network of the runtime with a fitting prefix survives the way back and
/// forth too.
pub proof fn lemma_wire_roundtrip(net: IpNet, wire: sql::IpNetwork)
    ensures
        net.valid() ==> spec_from_wire(spec_to_wire(net)) == Some(net),
        spec_from_wire(wire) matches Some(n) ==> spec_to_wire(n) == wire,
        spec_from_wire(wire) is Some <==> sql::valid_network(wire),
{
    match net {
        IpNet::V6 { addr, .. } => lemma_bits_roundtrip(addr, 0, 0),
        _ => {},
    }
    match wire {
        sql::IpNetwork::V6(v6) => lemma_bits_roundtrip(0, v6.addr.0, v6.addr.1),
        _ => {},
    }
}

/// A network goes to the runtime with its own address and prefix, an IPv6
/// address as its low and then its high 64 bits; a network of the runtime
/// whose prefix fits is read with its own address and prefix, and one whose
/// prefix is longer than its address is refused.
pub proof fn lemma_wire_keeps_fields(net: IpNet, wire: sql::IpNetwork)
    ensures
        net matches IpNet::V4 { addr, prefix } ==> spec_to_wire(net) == sql::IpNetwork::V4(
            sql::Ipv4Network { addr, prefix },
        ),
        net matches IpNet::V6 { addr, prefix } ==> spec_to_wire(net) == sql::IpNetwork::V6(
            sql::Ipv6Network { addr: (addr as u64, (addr >> 64) as u64), prefix },
        ),
        wire matches sql::IpNetwork::V4(v4) ==> spec_from_wire(wire) == (if v4.prefix <= 32 {
            Some(IpNet::V4 { addr: v4.addr, prefix: v4.prefix })
        } else {
            None
        }),
        wire matches sql::IpNetwork::V6(v6) ==> spec_from_wire(wire) == (if v6.prefix <= 128 {
            Some(
                IpNet::V6 {
                    addr: ((v6.addr.1 as int) * 0x1_0000_0000_0000_0000 + (v6.addr.0 as int)) as u128,
                    prefix: v6.prefix,
                },
            )
        } else {
            None
        }),
{
    match wire {
        sql::IpNetwork::V6(v6) => lemma_split_is_div_mod(0, v6.addr.0, v6.addr.1),
        _ => {},
    }
}

impl IpNet {
    /// The network as the runtime takes it.
    pub fn to_wire(&self) -> (wire: sql::IpNetwork)
        ensures
            wire == spec_to_wire(*self),
    {
        match *self {
            IpNet::V4 { addr, prefix } => sql::IpNetwork::V4(sql::Ipv4Network { addr, prefix }),
            IpNet::V6 { addr, prefix } => {
                let lo = addr as u64;
                let hi = (addr >> 64) as u64;
                sql::IpNetwork::V6(sql::Ipv6Network { addr: (lo, hi), prefix })
            },
        }
    }

    /// The network that a network of the runtime stands for; its prefix is
    /// checked by `ipnetwork`.
    pub fn from_wire(wire: sql::IpNetwork) -> (net: Result<IpNet, String>)
        ensures
            net is Ok <==> spec_from_wire(wire) is Some,
            net matches Ok(n) ==> spec_from_wire(wire) == Some(n),
            net matches Err(m) ==> m@ == invalid_prefix_message(),
    {
        match wire {
            sql::IpNetwork::V4(v4) => ipv4_network(v4.addr, v4.prefix),
            sql::IpNetwork::V6(v6) => {
                let addr = (v6.addr.0 as u128) | ((v6.addr.1 as u128) << 64);
                ipv6_network(addr, v6.prefix)
            },
        }
    }
}

/// The value that a network is bound as.
pub fn encode_ip_net(net: IpNet) -> (value: Result<Value, String>)
    requires
        net.valid(),
    ensures
        value matches Ok(v) && v.0 == sql::Value::Inet(spec_to_wire(net)),
{
    let wire = net.to_wire();
    let value = sql::Value::inet(wire)?;
    Ok(Value::new(value))
}

/// The network that a value holds, if it holds one whose prefix fits.
pub open spec fn spec_decode_ip_net(value: sql::Value) -> Option<IpNet> {
    match value {
        sql::Value::Inet(wire) => spec_from_wire(wire),
        _ => None,
    }
}

/// Read a network from a value.
pub fn decode_ip_net(value: &Value) -> (r: Result<IpNet, String>)
    ensures
        r is Ok <==> spec_decode_ip_net(value.0) is Some,
        r matches Ok(n) ==> spec_decode_ip_net(value.0) == Some(n),
        r matches Err(m) ==> m@ == (if value.0 is Inet {
            invalid_prefix_message()
        } else {
            nonnull_message(sql::TypeInfo::Inet, value.0)
        }),
{
    match value.0.as_inet() {
        Some(wire) => IpNet::from_wire(wire),
        None => Err(unexpected_nonnull_type(&TypeInfo::inet(), value)),
    }
}

/// The network that holds exactly one address.
pub open spec fn single_address(addr: IpAddress) -> IpNet {
    match addr {
        IpAddress::V4(a) => IpNet::V4 { addr: a, prefix: 32 },
        IpAddress::V6(a) => IpNet::V6 { addr: a, prefix: 128 },
    }
}

/// The address of a network that holds exactly one address.
pub open spec fn spec_address_of(net: IpNet) -> Option<IpAddress> {
    match net {
        IpNet::V4 { addr, prefix } => if prefix == 32 {
            Some(IpAddress::V4(addr))
        } else {
            None
        },
        IpNet::V6 { addr, prefix } => if prefix == 128 {
            Some(IpAddress::V6(addr))
        } else {
            None
        },
    }
}

/// The value that an address is bound as: the network holding just that
/// address.
pub fn encode_ip_addr(addr: IpAddress) -> (value: Result<Value, String>)
    ensures
        value matches Ok(v) && v.0 == sql::Value::Inet(spec_to_wire(single_address(addr))),
{
    let net = match addr {
        IpAddress::V4(a) => ipv4_network(a, 32)?,
        IpAddress::V6(a) => ipv6_network(a, 128)?,
    };
    encode_ip_net(net)
}

/// Read an address from a value holding a network with a single address.
pub fn decode_ip_addr(value: &Value) -> (r: Result<IpAddress, String>)
    ensures
        r is Ok <==> (spec_decode_ip_net(value.0) matches Some(n) && spec_address_of(n) is Some),
        r matches Ok(a) ==> spec_address_of(spec_decode_ip_net(value.0).unwrap()) == Some(a),
        r matches Err(m) ==> m@ == (if spec_decode_ip_net(value.0) is Some {
            multiple_addresses_message()
        } else if value.0 is Inet {
            invalid_prefix_message()
        } else {
            nonnull_message(sql::TypeInfo::Inet, value.0)
        }),
{
    let net = decode_ip_net(value)?;
    match net {
        IpNet::V4 { addr, prefix } => if prefix == 32 {
            return Ok(IpAddress::V4(addr));
        },
        IpNet::V6 { addr, prefix } => if prefix == 128 {
            return Ok(IpAddress::V6(addr));
        },
    }
    Err(String::from_str(
        "attempted to decode an IpAddr from a ip network containing multiple addresses",
    ))
}

/// An IPv4 address is bound as the network of prefix 32 and an IPv6 address
/// as the network of prefix 128, each sent to the runtime with the address
/// and that prefix; a network is read as an address exactly when its prefix
/// is the full length of its address, and then as its own address.
pub proof fn lemma_address_is_full_prefix(a4: u32, a6: u128, net: IpNet)
    ensures
        single_address(IpAddress::V4(a4)) == (IpNet::V4 { addr: a4, prefix: 32 }),
        single_address(IpAddress::V6(a6)) == (IpNet::V6 { addr: a6, prefix: 128 }),
        spec_to_wire(single_address(IpAddress::V4(a4))) == sql::IpNetwork::V4(
            sql::Ipv4Network { addr: a4, prefix: 32 },
        ),
        spec_to_wire(single_address(IpAddress::V6(a6))) == sql::IpNetwork::V6(
            sql::Ipv6Network { addr: (a6 as u64, (a6 >> 64) as u64), prefix: 128 },
        ),
        spec_address_of(IpNet::V4 { addr: a4, prefix: 32 }) == Some(IpAddress::V4(a4)),
        spec_address_of(IpNet::V6 { addr: a6, prefix: 128 }) == Some(IpAddress::V6(a6)),
        net matches IpNet::V4 { prefix, .. } ==> (spec_address_of(net) is Some <==> prefix
            == 32),
        net matches IpNet::V6 { prefix, .. } ==> (spec_address_of(net) is Some <==> prefix
            == 128),
        spec_address_of(net) matches Some(a) ==> single_address(a) == net,
{
}

/// An address bound as a value is read back as itself, and a network with a
/// fitting prefix is read back as itself.
pub proof fn lemma_ip_roundtrip(addr: IpAddress, net: IpNet)
    ensures
        spec_decode_ip_net(sql::Value::Inet(spec_to_wire(single_address(addr)))) == Some(
            single_address(addr),
        ),
        spec_address_of(single_address(addr)) == Some(addr),
        net.valid() ==> spec_decode_ip_net(sql::Value::Inet(spec_to_wire(net))) == Some(net),
{
    lemma_wire_roundtrip(single_address(addr), spec_to_wire(single_address(addr)));
    lemma_wire_roundtrip(net, spec_to_wire(net));
}

} // verus!
