//! The dissection driver: resolves the root encapsulation to a decoder,
//! then repeatedly decodes one layer and advances the cursor until a layer
//! names no successor or the buffer is exhausted. A malformed layer aborts
//! the whole construction; an unknown next protocol is a normal terminal
//! state, leaving the rest of the buffer as trailing bytes.

use vstd::prelude::*;
use vstd::slice::slice_to_vec;

use crate::Error;
use crate::layers::ethernet::{ETH_HEADER_LEN, wire_ethertype};
use crate::layers::{
    Layer, LayerModel, MIN_HEADER_LEN, decode_spec, lemma_decode_spec_used, new_layer,
};
use crate::registry::{LayerKind, RegEntry, RegistryTable, lookup_spec};
use crate::types::ENCAP_TYPE_ETH;

verus! {

/// The dissection result, as the contracts speak of it: the decoded layer
/// chain in on-wire order, the count of bytes consumed, and the bytes left
/// undissected.
pub struct PacketModel {
    pub layers: Seq<LayerModel>,
    pub consumed: int,
    pub trailing: Seq<u8>,
}

/// The models of a sequence of layers, in the same order.
pub open spec fn layers_view(s: Seq<Layer>) -> Seq<LayerModel> {
    s.map_values(|l: Layer| l@)
}

/// The driver loop from an intermediate state: decode one layer of `kind`
/// at `cursor`, append it to `acc`, and either stop — when the layer names
/// no successor or the buffer is exhausted — or continue with the named
/// decoder. Any decode failure aborts the whole dissection.
pub open spec fn dissect_loop_spec(
    b: Seq<u8>,
    cursor: int,
    kind: LayerKind,
    acc: Seq<LayerModel>,
    reg: Seq<RegEntry>,
) -> Result<PacketModel, Error>
    decreases b.len() - cursor
        when 0 <= cursor <= b.len()
{
    match decode_spec(kind, b.skip(cursor), reg) {
        Err(e) => Err(e),
        Ok((m, next, used)) => {
            let cursor2 = cursor + used;
            let acc2 = acc.push(m);
            if next is None || cursor2 >= b.len() {
                Ok(PacketModel { layers: acc2, consumed: cursor2, trailing: b.skip(cursor2) })
            } else {
                proof {
                    lemma_decode_spec_used(kind, b.skip(cursor), reg);
                }
                dissect_loop_spec(b, cursor2, next.unwrap(), acc2, reg)
            }
        },
    }
}

/// The whole dissection: the root encapsulation picks the root decoder —
/// refused as `UnknownEncapsulation` when the engine knows no such root —
/// and the driver loop runs from the front of the buffer.
pub open spec fn dissect_spec(b: Seq<u8>, encap: u32, reg: Seq<RegEntry>) -> Result<
    PacketModel,
    Error,
> {
    if encap == ENCAP_TYPE_ETH {
        dissect_loop_spec(b, 0, LayerKind::Ethernet, Seq::empty(), reg)
    } else {
        Err(Error::UnknownEncapsulation)
    }
}

/// The ordered, immutable result of fully dissecting one buffer: the layer
/// chain in decode order, the count of bytes consumed, and any unconsumed
/// trailing bytes.
#[derive(PartialEq, Eq, Clone, Debug)]
pub struct Packet {
    pub layers: Vec<Layer>,
    pub consumed: usize,
    pub trailing: Vec<u8>,
}

impl View for Packet {
    type V = PacketModel;

    open spec fn view(&self) -> PacketModel {
        PacketModel {
            layers: layers_view(self.layers@),
            consumed: self.consumed as int,
            trailing: self.trailing@,
        }
    }
}

impl Packet {
    /// The sole decode entry point: dissects `bytes` from the declared
    /// root encapsulation over the given registries, returning exactly
    /// what [`dissect_spec`] states — a fully formed packet, or the error
    /// of the first layer that failed.
    pub fn from_bytes(bytes: &[u8], encap: u32, table: &RegistryTable) -> (r: Result<
        Packet,
        Error,
    >)
        ensures
            match r {
                Ok(p) => {
                    &&& dissect_spec(bytes@, encap, table@) is Ok
                    &&& p@ == dissect_spec(bytes@, encap, table@).unwrap()
                },
                Err(e) => dissect_spec(bytes@, encap, table@) == Err::<PacketModel, Error>(e),
            },
    {
        if encap != ENCAP_TYPE_ETH {
            return Err(Error::UnknownEncapsulation);
        }
        let n = bytes.len();
        let mut layers: Vec<Layer> = Vec::new();
        let mut cursor: usize = 0;
        let mut kind = LayerKind::Ethernet;
        proof {
            assert(layers_view(layers@) =~= Seq::<LayerModel>::empty());
        }
        loop
            invariant
                cursor <= n,
                n == bytes@.len(),
                encap == ENCAP_TYPE_ETH,
                dissect_loop_spec(bytes@, cursor as int, kind, layers_view(layers@), table@)
                    == dissect_spec(bytes@, encap, table@),
            decreases n - cursor,
        {
            let ghost acc = layers_view(layers@);
            let mut layer = new_layer(kind);
            let rest = &bytes[cursor..n];
            proof {
                assert(rest@ =~= bytes@.skip(cursor as int));
            }
            match layer.decode(rest, table) {
                Err(e) => {
                    return Err(e);
                },
                Ok((next, used)) => {
                    proof {
                        lemma_decode_spec_used(kind, rest@, table@);
                    }
                    let ghost m = layer@;
                    layers.push(layer);
                    proof {
                        assert(layers_view(layers@) =~= acc.push(m));
                    }
                    let cursor2 = cursor + used;
                    let stop = match next {
                        None => true,
                        Some(_) => cursor2 >= n,
                    };
                    if stop {
                        let trailing = slice_to_vec(&bytes[cursor2..n]);
                        proof {
                            assert(trailing@ =~= bytes@.skip(cursor2 as int));
                        }
                        return Ok(Packet { layers, consumed: cursor2, trailing });
                    }
                    kind = match next {
                        Some(k) => k,
                        None => kind,
                    };
                    cursor = cursor2;
                },
            }
        }
    }
}

/// Determinism: the dissection result is a function of the byte buffer,
/// the root encapsulation and the registry contents alone, so repeated
/// dissections of equal inputs yield identical layer chains, consumed
/// counts and trailing bytes.
pub proof fn lemma_dissect_deterministic(
    b: Seq<u8>,
    encap: u32,
    reg: Seq<RegEntry>,
    r1: Result<PacketModel, Error>,
    r2: Result<PacketModel, Error>,
)
    requires
        r1 == dissect_spec(b, encap, reg),
        r2 == dissect_spec(b, encap, reg),
    ensures
        r1 == r2,
{
}

/// The driver loop only ever grows the accumulated chain and moves the
/// cursor forward, at least one minimum header per layer, never past the
/// end of the buffer; whatever it does not consume is the trailing bytes.
proof fn lemma_dissect_loop_bounded(
    b: Seq<u8>,
    cursor: int,
    kind: LayerKind,
    acc: Seq<LayerModel>,
    reg: Seq<RegEntry>,
)
    requires
        0 <= cursor <= b.len(),
        dissect_loop_spec(b, cursor, kind, acc, reg) is Ok,
    ensures
        ({
            let p = dissect_loop_spec(b, cursor, kind, acc, reg).unwrap();
            &&& acc.len() + 1 <= p.layers.len()
            &&& cursor < p.consumed <= b.len()
            &&& p.trailing == b.skip(p.consumed)
            &&& MIN_HEADER_LEN * (p.layers.len() - acc.len()) <= p.consumed - cursor
        }),
    decreases b.len() - cursor,
{
    let d = decode_spec(kind, b.skip(cursor), reg);
    lemma_decode_spec_used(kind, b.skip(cursor), reg);
    let m = d.unwrap().0;
    let next = d.unwrap().1;
    let used = d.unwrap().2;
    let cursor2 = cursor + used;
    if !(next is None || cursor2 >= b.len()) {
        lemma_dissect_loop_bounded(b, cursor2, next.unwrap(), acc.push(m), reg);
    }
}

/// Cursor monotonicity and boundedness: a successful dissection holds at
/// least the root layer, consumes at most the whole buffer — the rest
/// being the trailing bytes — and holds at most one layer per
/// `MIN_HEADER_LEN` bytes consumed, so the layer count is bounded by the
/// buffer length divided by the smallest minimum header size.
pub proof fn lemma_dissect_bounded(b: Seq<u8>, encap: u32, reg: Seq<RegEntry>)
    requires
        dissect_spec(b, encap, reg) is Ok,
    ensures
        ({
            let p = dissect_spec(b, encap, reg).unwrap();
            &&& 1 <= p.layers.len()
            &&& 0 < p.consumed <= b.len()
            &&& p.consumed + p.trailing.len() == b.len()
            &&& p.trailing == b.skip(p.consumed)
            &&& MIN_HEADER_LEN * p.layers.len() <= p.consumed
        }),
{
    lemma_dissect_loop_bounded(b, 0, LayerKind::Ethernet, Seq::empty(), reg);
}

/// Truncation safety: a buffer shorter than the root decoder's minimum
/// header size is refused with `TooShort`; no partial packet is returned.
pub proof fn lemma_truncation_safety(b: Seq<u8>, reg: Seq<RegEntry>)
    requires
        b.len() < ETH_HEADER_LEN,
    ensures
        dissect_spec(b, ENCAP_TYPE_ETH, reg) == Err::<PacketModel, Error>(Error::TooShort),
{
    assert(b.skip(0) =~= b);
}

/// Unknown next protocol is a normal terminal state, not an error: when
/// the root header's ethertype resolves to no registered decoder, the
/// dissection succeeds with exactly one layer, and everything past the
/// root header is reported as trailing bytes.
pub proof fn lemma_unknown_next_is_terminal(b: Seq<u8>, reg: Seq<RegEntry>)
    requires
        b.len() >= ETH_HEADER_LEN,
        lookup_spec(reg, wire_ethertype(b)) is None,
    ensures
        ({
            let d = dissect_spec(b, ENCAP_TYPE_ETH, reg);
            &&& d is Ok
            &&& d.unwrap().layers.len() == 1
            &&& d.unwrap().consumed == ETH_HEADER_LEN
            &&& d.unwrap().trailing == b.skip(ETH_HEADER_LEN as int)
        }),
{
    assert(b.skip(0) =~= b);
}

} // verus!
