//! A network-layer decoder for IPv4. Only its interface boundary matters
//! to the engine: it consumes its minimum header from the front of the
//! buffer and is terminal — the engine dissects no deeper on this path.

use vstd::prelude::*;
use vstd::slice::slice_to_vec;

use crate::Error;
use crate::registry::LayerKind;

verus! {

/// Minimum IPv4 header length.
pub const IPV4_HEADER_LEN: usize = 20;

/// What decoding an IPv4 header from the front of `r` yields: too few
/// bytes are refused; otherwise the twenty header bytes are kept, twenty
/// bytes are consumed, and no further decoder follows.
pub open spec fn ipv4_decode_spec(r: Seq<u8>) -> Result<
    (Seq<u8>, Option<LayerKind>, int),
    Error,
> {
    if r.len() < 20 {
        Err(Error::TooShort)
    } else {
        Ok((r.subrange(0, 20), None, 20))
    }
}

/// One IPv4 layer: blank until its single decode call captures the header
/// bytes.
#[derive(PartialEq, Eq, Clone, Debug)]
pub struct IPv4 {
    pub header: Vec<u8>,
}

impl View for IPv4 {
    type V = Seq<u8>;

    open spec fn view(&self) -> Seq<u8> {
        self.header@
    }
}

impl IPv4 {
    /// A fresh, blank IPv4 layer for the dissection driver to decode into.
    pub fn creator() -> (r: IPv4)
        ensures
            r@.len() == 0,
    {
        IPv4 { header: Vec::new() }
    }

    /// Consumes one IPv4 header from the front of `bytes`, exactly as
    /// [`ipv4_decode_spec`] states.
    pub fn from_u8(&mut self, bytes: &[u8]) -> (r: Result<(Option<LayerKind>, usize), Error>)
        ensures
            match r {
                Ok((next, used)) => {
                    let d = ipv4_decode_spec(bytes@);
                    &&& d is Ok
                    &&& final(self)@ == d.unwrap().0
                    &&& next == d.unwrap().1
                    &&& used as int == d.unwrap().2
                },
                Err(e) => {
                    &&& ipv4_decode_spec(bytes@) == Err::<
                        (Seq<u8>, Option<LayerKind>, int),
                        Error,
                    >(e)
                    &&& *final(self) == *old(self)
                },
            },
    {
        if bytes.len() < IPV4_HEADER_LEN {
            return Err(Error::TooShort);
        }
        self.header = slice_to_vec(&bytes[0..IPV4_HEADER_LEN]);
        Ok((None, IPV4_HEADER_LEN))
    }

    /// The protocol's stable long-form name.
    pub fn name(&self) -> (r: &'static str)
        ensures
            r@ == "IPv4"@,
    {
        "IPv4"
    }

    /// The protocol's stable short name, used for compact display.
    pub fn short_name(&self) -> (r: &'static str)
        ensures
            r@ == "ip"@,
    {
        "ip"
    }
}

} // verus!
