//! Value types shared by every layer: protocol identifiers, hardware
//! addresses, and the encapsulation tag that names a buffer's root domain.

use vstd::prelude::*;

verus! {

/// Root encapsulation tag for an Ethernet-framed capture.
pub const ENCAP_TYPE_ETH: u32 = 1;

/// Well-known ethertype: IPv4.
pub const ETHERTYPE_IP: u16 = 0x0800;

/// Well-known ethertype: IPv6.
pub const ETHERTYPE_IP6: u16 = 0x86DD;

/// The uppercase hexadecimal digit for a value below sixteen.
pub open spec fn hex_upper(n: int) -> char {
    if n == 0 {
        '0'
    } else if n == 1 {
        '1'
    } else if n == 2 {
        '2'
    } else if n == 3 {
        '3'
    } else if n == 4 {
        '4'
    } else if n == 5 {
        '5'
    } else if n == 6 {
        '6'
    } else if n == 7 {
        '7'
    } else if n == 8 {
        '8'
    } else if n == 9 {
        '9'
    } else if n == 10 {
        'A'
    } else if n == 11 {
        'B'
    } else if n == 12 {
        'C'
    } else if n == 13 {
        'D'
    } else if n == 14 {
        'E'
    } else {
        'F'
    }
}

/// The lowercase hexadecimal digit for a value below sixteen.
pub open spec fn hex_lower(n: int) -> char {
    if n == 0 {
        '0'
    } else if n == 1 {
        '1'
    } else if n == 2 {
        '2'
    } else if n == 3 {
        '3'
    } else if n == 4 {
        '4'
    } else if n == 5 {
        '5'
    } else if n == 6 {
        '6'
    } else if n == 7 {
        '7'
    } else if n == 8 {
        '8'
    } else if n == 9 {
        '9'
    } else if n == 10 {
        'a'
    } else if n == 11 {
        'b'
    } else if n == 12 {
        'c'
    } else if n == 13 {
        'd'
    } else if n == 14 {
        'e'
    } else {
        'f'
    }
}

/// The canonical display of an ethertype: `0x` followed by four
/// zero-padded uppercase hexadecimal digits.
pub open spec fn ethertype_chars(v: u16) -> Seq<char> {
    seq![
        '0',
        'x',
        hex_upper(v as int / 4096 % 16),
        hex_upper(v as int / 256 % 16),
        hex_upper(v as int / 16 % 16),
        hex_upper(v as int % 16),
    ]
}

/// Two lowercase hexadecimal digits for one byte.
pub open spec fn byte_chars(b: u8) -> Seq<char> {
    seq![hex_lower(b as int / 16), hex_lower(b as int % 16)]
}

/// The canonical display of a six-byte hardware address: lowercase
/// hexadecimal byte pairs joined by colons.
pub open spec fn mac_chars(s: Seq<u8>) -> Seq<char>
    recommends
        s.len() == 6,
{
    byte_chars(s[0]) + seq![':'] + byte_chars(s[1]) + seq![':'] + byte_chars(s[2]) + seq![':']
        + byte_chars(s[3]) + seq![':'] + byte_chars(s[4]) + seq![':'] + byte_chars(s[5])
}

/// A protocol identifier within one encapsulation domain: a fixed-width
/// wire value such as an ethertype. Any wire value is legal, including
/// ones naming no known protocol; construction cannot fail.
#[derive(PartialEq, Eq, Clone, Copy, Hash, Debug)]
pub struct EtherType(pub u16);

impl Default for EtherType {
    /// The zero identifier, the value a blank layer holds before decode.
    fn default() -> (r: EtherType)
        ensures
            r.0 == 0,
    {
        EtherType(0)
    }
}

impl EtherType {
    /// The canonical zero-padded hexadecimal display of the identifier.
    pub fn hex_string(&self) -> (r: String)
        ensures
            r@ == ethertype_chars(self.0),
    {
        let mut s = String::from_str("0x");
        proof {
            reveal_strlit("0x");
        }
        s.append(hex_digit_upper((self.0 / 4096 % 16) as u8));
        s.append(hex_digit_upper((self.0 / 256 % 16) as u8));
        s.append(hex_digit_upper((self.0 / 16 % 16) as u8));
        s.append(hex_digit_upper((self.0 % 16) as u8));
        proof {
            assert(s@ =~= ethertype_chars(self.0));
        }
        s
    }
}

/// A six-byte link-layer hardware address.
#[derive(PartialEq, Eq, Clone, Copy, Debug)]
pub struct MACAddress {
    pub b0: u8,
    pub b1: u8,
    pub b2: u8,
    pub b3: u8,
    pub b4: u8,
    pub b5: u8,
}

impl View for MACAddress {
    type V = Seq<u8>;

    open spec fn view(&self) -> Seq<u8> {
        seq![self.b0, self.b1, self.b2, self.b3, self.b4, self.b5]
    }
}

impl Default for MACAddress {
    /// The all-zero address, the value a blank layer holds before decode.
    fn default() -> (r: MACAddress)
        ensures
            r@ =~= Seq::new(6, |i: int| 0u8),
    {
        MACAddress { b0: 0, b1: 0, b2: 0, b3: 0, b4: 0, b5: 0 }
    }
}

impl MACAddress {
    /// The colon-separated lowercase hexadecimal display of the address.
    pub fn hex_string(&self) -> (r: String)
        ensures
            r@ == mac_chars(self@),
    {
        let mut s = byte_hex(self.b0);
        proof {
            reveal_strlit(":");
        }
        s.append(":");
        s.append(byte_hex(self.b1).as_str());
        s.append(":");
        s.append(byte_hex(self.b2).as_str());
        s.append(":");
        s.append(byte_hex(self.b3).as_str());
        s.append(":");
        s.append(byte_hex(self.b4).as_str());
        s.append(":");
        s.append(byte_hex(self.b5).as_str());
        proof {
            assert(s@ =~= mac_chars(self@));
        }
        s
    }
}

/// Two lowercase hexadecimal digits for one byte, as a string.
fn byte_hex(b: u8) -> (r: String)
    ensures
        r@ == byte_chars(b),
{
    let mut s = String::from_str(hex_digit_lower(b / 16));
    s.append(hex_digit_lower(b % 16));
    proof {
        assert(s@ =~= byte_chars(b));
    }
    s
}

/// One uppercase hexadecimal digit, as a string.
fn hex_digit_upper(n: u8) -> (r: &'static str)
    requires
        n < 16,
    ensures
        r@ == seq![hex_upper(n as int)],
{
    proof {
        reveal_strlit("0");
        reveal_strlit("1");
        reveal_strlit("2");
        reveal_strlit("3");
        reveal_strlit("4");
        reveal_strlit("5");
        reveal_strlit("6");
        reveal_strlit("7");
        reveal_strlit("8");
        reveal_strlit("9");
        reveal_strlit("A");
        reveal_strlit("B");
        reveal_strlit("C");
        reveal_strlit("D");
        reveal_strlit("E");
        reveal_strlit("F");
    }
    if n == 0 {
        "0"
    } else if n == 1 {
        "1"
    } else if n == 2 {
        "2"
    } else if n == 3 {
        "3"
    } else if n == 4 {
        "4"
    } else if n == 5 {
        "5"
    } else if n == 6 {
        "6"
    } else if n == 7 {
        "7"
    } else if n == 8 {
        "8"
    } else if n == 9 {
        "9"
    } else if n == 10 {
        "A"
    } else if n == 11 {
        "B"
    } else if n == 12 {
        "C"
    } else if n == 13 {
        "D"
    } else if n == 14 {
        "E"
    } else {
        "F"
    }
}

/// One lowercase hexadecimal digit, as a string.
fn hex_digit_lower(n: u8) -> (r: &'static str)
    requires
        n < 16,
    ensures
        r@ == seq![hex_lower(n as int)],
{
    proof {
        reveal_strlit("0");
        reveal_strlit("1");
        reveal_strlit("2");
        reveal_strlit("3");
        reveal_strlit("4");
        reveal_strlit("5");
        reveal_strlit("6");
        reveal_strlit("7");
        reveal_strlit("8");
        reveal_strlit("9");
        reveal_strlit("a");
        reveal_strlit("b");
        reveal_strlit("c");
        reveal_strlit("d");
        reveal_strlit("e");
        reveal_strlit("f");
    }
    if n == 0 {
        "0"
    } else if n == 1 {
        "1"
    } else if n == 2 {
        "2"
    } else if n == 3 {
        "3"
    } else if n == 4 {
        "4"
    } else if n == 5 {
        "5"
    } else if n == 6 {
        "6"
    } else if n == 7 {
        "7"
    } else if n == 8 {
        "8"
    } else if n == 9 {
        "9"
    } else if n == 10 {
        "a"
    } else if n == 11 {
        "b"
    } else if n == 12 {
        "c"
    } else if n == 13 {
        "d"
    } else if n == 14 {
        "e"
    } else {
        "f"
    }
}

} // verus!
