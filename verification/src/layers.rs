//! The layer capability: every protocol decoder knows how to consume its
//! own header from the front of a byte buffer and to name the decoder of
//! what follows, if any. The dissection driver is protocol-agnostic; all
//! protocol knowledge lives here and in the registries.

pub mod ethernet;
pub mod ipv4;
pub mod ipv6;

use vstd::prelude::*;

use crate::Error;
use crate::registry::{LayerKind, RegEntry, RegistryTable};
use crate::layers::ethernet::{Ethernet, EthernetModel, ethernet_decode_spec};
use crate::layers::ipv4::{IPv4, ipv4_decode_spec};
use crate::layers::ipv6::{IPv6, ipv6_decode_spec};

verus! {

/// The smallest minimum header size over every decoder the engine knows;
/// each successful decode step consumes at least this many bytes.
pub const MIN_HEADER_LEN: usize = 14;

/// One decoded protocol layer of a packet.
#[derive(PartialEq, Eq, Clone, Debug)]
pub enum Layer {
    Ethernet(Ethernet),
    IPv4(IPv4),
    IPv6(IPv6),
}

/// The decoded fields of one layer, as the contracts speak of them.
pub enum LayerModel {
    Ethernet(EthernetModel),
    IPv4(Seq<u8>),
    IPv6(Seq<u8>),
}

impl View for Layer {
    type V = LayerModel;

    open spec fn view(&self) -> LayerModel {
        match self {
            Layer::Ethernet(l) => LayerModel::Ethernet(l@),
            Layer::IPv4(l) => LayerModel::IPv4(l@),
            Layer::IPv6(l) => LayerModel::IPv6(l@),
        }
    }
}

/// The decoder kind a layer instance was made by.
pub open spec fn kind_of(l: Layer) -> LayerKind {
    match l {
        Layer::Ethernet(_) => LayerKind::Ethernet,
        Layer::IPv4(_) => LayerKind::IPv4,
        Layer::IPv6(_) => LayerKind::IPv6,
    }
}

/// What one decode step of the given kind yields on the front of `r`: the
/// populated layer fields, the next decoder (or `None`, the normal
/// terminal state), and the number of bytes consumed.
pub open spec fn decode_spec(kind: LayerKind, r: Seq<u8>, reg: Seq<RegEntry>) -> Result<
    (LayerModel, Option<LayerKind>, int),
    Error,
> {
    match kind {
        LayerKind::Ethernet => match ethernet_decode_spec(r, reg) {
            Ok((m, next, used)) => Ok((LayerModel::Ethernet(m), next, used)),
            Err(e) => Err(e),
        },
        LayerKind::IPv4 => match ipv4_decode_spec(r) {
            Ok((m, next, used)) => Ok((LayerModel::IPv4(m), next, used)),
            Err(e) => Err(e),
        },
        LayerKind::IPv6 => match ipv6_decode_spec(r) {
            Ok((m, next, used)) => Ok((LayerModel::IPv6(m), next, used)),
            Err(e) => Err(e),
        },
    }
}

/// Every successful decode step consumes at least the smallest minimum
/// header size and never more than the bytes it was given.
pub proof fn lemma_decode_spec_used(kind: LayerKind, r: Seq<u8>, reg: Seq<RegEntry>)
    requires
        decode_spec(kind, r, reg) is Ok,
    ensures
        MIN_HEADER_LEN <= decode_spec(kind, r, reg).unwrap().2 <= r.len(),
{
}

/// A fresh, blank layer of the given kind, ready for its single decode
/// call.
pub fn new_layer(kind: LayerKind) -> (r: Layer)
    ensures
        kind_of(r) == kind,
{
    match kind {
        LayerKind::Ethernet => Layer::Ethernet(Ethernet::creator()),
        LayerKind::IPv4 => Layer::IPv4(IPv4::creator()),
        LayerKind::IPv6 => Layer::IPv6(IPv6::creator()),
    }
}

impl Layer {
    /// Parses this layer's header from the front of `bytes`, fills the
    /// layer's fields, and names the decoder of what follows, exactly as
    /// [`decode_spec`] states for the layer's kind.
    pub fn decode(&mut self, bytes: &[u8], table: &RegistryTable) -> (r: Result<
        (Option<LayerKind>, usize),
        Error,
    >)
        ensures
            kind_of(*final(self)) == kind_of(*old(self)),
            match r {
                Ok((next, used)) => {
                    let d = decode_spec(kind_of(*old(self)), bytes@, table@);
                    &&& d is Ok
                    &&& final(self)@ == d.unwrap().0
                    &&& next == d.unwrap().1
                    &&& used as int == d.unwrap().2
                },
                Err(e) => {
                    &&& decode_spec(kind_of(*old(self)), bytes@, table@) == Err::<
                        (LayerModel, Option<LayerKind>, int),
                        Error,
                    >(e)
                    &&& *final(self) == *old(self)
                },
            },
    {
        match self {
            Layer::Ethernet(l) => l.from_u8(bytes, &table.ethertypes),
            Layer::IPv4(l) => l.from_u8(bytes),
            Layer::IPv6(l) => l.from_u8(bytes),
        }
    }

    /// The stable long-form name of the layer's protocol.
    pub fn name(&self) -> (r: &'static str)
        ensures
            match self {
                Layer::Ethernet(_) => r@ == "Ethernet"@,
                Layer::IPv4(_) => r@ == "IPv4"@,
                Layer::IPv6(_) => r@ == "IPv6"@,
            },
    {
        match self {
            Layer::Ethernet(l) => l.name(),
            Layer::IPv4(l) => l.name(),
            Layer::IPv6(l) => l.name(),
        }
    }

    /// The stable short name of the layer's protocol.
    pub fn short_name(&self) -> (r: &'static str)
        ensures
            match self {
                Layer::Ethernet(_) => r@ == "eth"@,
                Layer::IPv4(_) => r@ == "ip"@,
                Layer::IPv6(_) => r@ == "ip6"@,
            },
    {
        match self {
            Layer::Ethernet(l) => l.short_name(),
            Layer::IPv4(l) => l.short_name(),
            Layer::IPv6(l) => l.short_name(),
        }
    }
}

} // verus!
