//! The link-layer reference decoder: a fixed fourteen-byte Ethernet
//! header of destination address, source address and ethertype, which
//! selects the next decoder from the ethertype registry.

use vstd::prelude::*;

use crate::Error;
use crate::registry::{
    LayerKind, RegEntry, Registry, RegistryTable, lookup_spec, register_spec,
};
use crate::types::{ETHERTYPE_IP, ETHERTYPE_IP6, EtherType, MACAddress};

verus! {

/// Minimum Ethernet header: six destination bytes, six source bytes, two
/// ethertype bytes.
pub const ETH_HEADER_LEN: usize = 14;

/// The ethertype carried by an Ethernet header: the big-endian sixteen-bit
/// value at offsets twelve and thirteen.
pub open spec fn wire_ethertype(r: Seq<u8>) -> u16
    recommends
        r.len() >= 14,
{
    (r[12] as int * 256 + r[13] as int) as u16
}

/// The decoded fields of one Ethernet header.
pub struct EthernetModel {
    pub dst: Seq<u8>,
    pub src: Seq<u8>,
    pub ethertype: u16,
}

/// What decoding an Ethernet header from the front of `r` yields: too few
/// bytes are refused; otherwise the destination and source addresses and
/// the ethertype are read, fourteen bytes are consumed, and the next
/// decoder is whatever the ethertype registry resolves the ethertype to —
/// `None`, a normal terminal state, when it is unregistered.
pub open spec fn ethernet_decode_spec(r: Seq<u8>, reg: Seq<RegEntry>) -> Result<
    (EthernetModel, Option<LayerKind>, int),
    Error,
> {
    if r.len() < 14 {
        Err(Error::TooShort)
    } else {
        Ok(
            (
                EthernetModel {
                    dst: r.subrange(0, 6),
                    src: r.subrange(6, 12),
                    ethertype: wire_ethertype(r),
                },
                lookup_spec(reg, wire_ethertype(r)),
                14,
            ),
        )
    }
}

/// One Ethernet layer: blank until its single decode call populates the
/// addresses and the ethertype.
#[derive(PartialEq, Eq, Clone, Copy, Debug)]
pub struct Ethernet {
    pub dst_mac: MACAddress,
    pub src_mac: MACAddress,
    pub ethertype: EtherType,
}

impl View for Ethernet {
    type V = EthernetModel;

    open spec fn view(&self) -> EthernetModel {
        EthernetModel { dst: self.dst_mac@, src: self.src_mac@, ethertype: self.ethertype.0 }
    }
}

impl Default for Ethernet {
    /// A blank Ethernet layer; every field holds zero until decode.
    fn default() -> (r: Ethernet)
        ensures
            r@.dst =~= Seq::new(6, |i: int| 0u8),
            r@.src =~= Seq::new(6, |i: int| 0u8),
            r@.ethertype == 0,
    {
        Ethernet {
            dst_mac: MACAddress::default(),
            src_mac: MACAddress::default(),
            ethertype: EtherType::default(),
        }
    }
}

impl Ethernet {
    /// A fresh, blank Ethernet layer for the dissection driver to decode
    /// into; every field holds zero until then.
    pub fn creator() -> (r: Ethernet)
        ensures
            r@.dst =~= Seq::new(6, |i: int| 0u8),
            r@.src =~= Seq::new(6, |i: int| 0u8),
            r@.ethertype == 0,
    {
        Ethernet::default()
    }

    /// Parses one Ethernet header from the front of `bytes`, fills the
    /// layer's fields, and resolves the next decoder from the ethertype
    /// registry, exactly as [`ethernet_decode_spec`] states.
    pub fn from_u8(&mut self, bytes: &[u8], reg: &Registry) -> (r: Result<
        (Option<LayerKind>, usize),
        Error,
    >)
        ensures
            match r {
                Ok((next, used)) => {
                    let d = ethernet_decode_spec(bytes@, reg@);
                    &&& d is Ok
                    &&& final(self)@ == d.unwrap().0
                    &&& next == d.unwrap().1
                    &&& used as int == d.unwrap().2
                },
                Err(e) => {
                    &&& ethernet_decode_spec(bytes@, reg@) == Err::<
                        (EthernetModel, Option<LayerKind>, int),
                        Error,
                    >(e)
                    &&& *final(self) == *old(self)
                },
            },
    {
        if bytes.len() < ETH_HEADER_LEN {
            return Err(Error::TooShort);
        }
        self.dst_mac = MACAddress {
            b0: bytes[0],
            b1: bytes[1],
            b2: bytes[2],
            b3: bytes[3],
            b4: bytes[4],
            b5: bytes[5],
        };
        self.src_mac = MACAddress {
            b0: bytes[6],
            b1: bytes[7],
            b2: bytes[8],
            b3: bytes[9],
            b4: bytes[10],
            b5: bytes[11],
        };
        let et: u16 = (bytes[12] as u16) * 256 + (bytes[13] as u16);
        self.ethertype = EtherType(et);
        let next = reg.lookup(et);
        proof {
            assert(self.dst_mac@ =~= bytes@.subrange(0, 6));
            assert(self.src_mac@ =~= bytes@.subrange(6, 12));
        }
        Ok((next, ETH_HEADER_LEN))
    }

    /// The protocol's stable long-form name.
    pub fn name(&self) -> (r: &'static str)
        ensures
            r@ == "Ethernet"@,
    {
        "Ethernet"
    }

    /// The protocol's stable short name, used for compact display.
    pub fn short_name(&self) -> (r: &'static str)
        ensures
            r@ == "eth"@,
    {
        "eth"
    }
}

/// Registers a decoder for one ethertype. A layer that handles the payload
/// of a given ethertype claims that identifier here; an already-claimed
/// identifier is refused and the table is left unchanged.
pub fn register_ethertype(table: &mut RegistryTable, eth_type: EtherType, layer: LayerKind) -> (r:
    Result<(), Error>)
    ensures
        match register_spec(old(table)@, eth_type.0, layer) {
            Ok(s) => r is Ok && final(table)@ == s,
            Err(e) => r == Err::<(), Error>(e) && final(table)@ == old(table)@,
        },
{
    table.ethertypes.register(eth_type.0, layer)
}

/// Registers the engine's built-in well-known ethertypes — IPv4 and IPv6 —
/// stopping at the first refusal and keeping whatever registered before it.
pub fn register_defaults(table: &mut RegistryTable) -> (r: Result<(), Error>)
    ensures
        match register_spec(old(table)@, ETHERTYPE_IP, LayerKind::IPv4) {
            Err(e) => r == Err::<(), Error>(e) && final(table)@ == old(table)@,
            Ok(s1) => match register_spec(s1, ETHERTYPE_IP6, LayerKind::IPv6) {
                Err(e) => r == Err::<(), Error>(e) && final(table)@ == s1,
                Ok(s2) => r is Ok && final(table)@ == s2,
            },
        },
{
    register_ethertype(table, EtherType(ETHERTYPE_IP), LayerKind::IPv4)?;
    register_ethertype(table, EtherType(ETHERTYPE_IP6), LayerKind::IPv6)?;
    Ok(())
}

} // verus!
