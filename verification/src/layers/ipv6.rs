//! A network-layer decoder for IPv6. Only its interface boundary matters
//! to the engine: it consumes its fixed header from the front of the
//! buffer and is terminal — the engine dissects no deeper on this path.

use vstd::prelude::*;
use vstd::slice::slice_to_vec;

use crate::Error;
use crate::registry::LayerKind;

verus! {

/// Fixed IPv6 header length.
pub const IPV6_HEADER_LEN: usize = 40;

/// What decoding an IPv6 header from the front of `r` yields: too few
/// bytes are refused; otherwise the forty header bytes are kept, forty
/// bytes are consumed, and no further decoder follows.
pub open spec fn ipv6_decode_spec(r: Seq<u8>) -> Result<
    (Seq<u8>, Option<LayerKind>, int),
    Error,
> {
    if r.len() < 40 {
        Err(Error::TooShort)
    } else {
        Ok((r.subrange(0, 40), None, 40))
    }
}

/// One IPv6 layer: blank until its single decode call captures the header
/// bytes.
#[derive(PartialEq, Eq, Clone, Debug)]
pub struct IPv6 {
    pub header: Vec<u8>,
}

impl View for IPv6 {
    type V = Seq<u8>;

    open spec fn view(&self) -> Seq<u8> {
        self.header@
    }
}

impl IPv6 {
    /// A fresh, blank IPv6 layer for the dissection driver to decode into.
    pub fn creator() -> (r: IPv6)
        ensures
            r@.len() == 0,
    {
        IPv6 { header: Vec::new() }
    }

    /// Consumes one IPv6 header from the front of `bytes`, exactly as
    /// [`ipv6_decode_spec`] states.
    pub fn from_u8(&mut self, bytes: &[u8]) -> (r: Result<(Option<LayerKind>, usize), Error>)
        ensures
            match r {
                Ok((next, used)) => {
                    let d = ipv6_decode_spec(bytes@);
                    &&& d is Ok
                    &&& final(self)@ == d.unwrap().0
                    &&& next == d.unwrap().1
                    &&& used as int == d.unwrap().2
                },
                Err(e) => {
                    &&& ipv6_decode_spec(bytes@) == Err::<
                        (Seq<u8>, Option<LayerKind>, int),
                        Error,
                    >(e)
                    &&& *final(self) == *old(self)
                },
            },
    {
        if bytes.len() < IPV6_HEADER_LEN {
            return Err(Error::TooShort);
        }
        self.header = slice_to_vec(&bytes[0..IPV6_HEADER_LEN]);
        Ok((None, IPV6_HEADER_LEN))
    }

    /// The protocol's stable long-form name.
    pub fn name(&self) -> (r: &'static str)
        ensures
            r@ == "IPv6"@,
    {
        "IPv6"
    }

    /// The protocol's stable short name, used for compact display.
    pub fn short_name(&self) -> (r: &'static str)
        ensures
            r@ == "ip6"@,
    {
        "ip6"
    }
}

} // verus!
