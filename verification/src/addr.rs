//! Hardware addresses: the 48-bit BLE device address and its colon-delimited
//! string form (`aa:bb:cc:dd:ee:ff`, case-insensitive hex).

use vstd::prelude::*;
use vstd::string::*;

verus! {

/// Number of bytes in the textual form: six octet pairs and five colons.
pub const MAC_STR_LEN: usize = 17;

/// A 48-bit hardware address, big-endian octets packed into the low bits.
#[derive(Clone, Copy, Debug, PartialEq, Eq, Structural)]
pub struct MacAddr {
    pub bits: u64,
}

impl MacAddr {
    /// Only the low 48 bits carry the address.
    pub open spec fn wf(self) -> bool {
        self.bits < 0x1_0000_0000_0000
    }
}

/// ASCII hexadecimal digit, either case.
pub open spec fn spec_is_hex_digit(b: u8) -> bool {
    (48 <= b && b <= 57) || (97 <= b && b <= 102) || (65 <= b && b <= 70)
}

/// Value of an ASCII hexadecimal digit; zero on anything else.
pub open spec fn spec_hex_val(b: u8) -> int {
    if 48 <= b && b <= 57 {
        b - 48
    } else if 97 <= b && b <= 102 {
        b - 87
    } else if 65 <= b && b <= 70 {
        b - 55
    } else {
        0
    }
}

/// The bytes form a colon-delimited hardware address: seventeen bytes, a colon
/// at every third position and hex digits everywhere else.
pub open spec fn spec_is_mac_str(s: Seq<u8>) -> bool {
    s.len() == MAC_STR_LEN && forall|i: int|
        #![trigger s[i]]
        0 <= i < MAC_STR_LEN ==> (if i % 3 == 2 {
            s[i] == 58
        } else {
            spec_is_hex_digit(s[i])
        })
}

/// The octet written at byte positions `pos` and `pos + 1`.
pub open spec fn spec_octet_at(s: Seq<u8>, pos: int) -> int {
    spec_hex_val(s[pos]) * 16 + spec_hex_val(s[pos + 1])
}

/// The 48-bit value of a colon-delimited address: its six octets, big-endian.
pub open spec fn spec_mac_bits(s: Seq<u8>) -> int {
    ((((spec_octet_at(s, 0) * 256 + spec_octet_at(s, 3)) * 256 + spec_octet_at(s, 6)) * 256
        + spec_octet_at(s, 9)) * 256 + spec_octet_at(s, 12)) * 256 + spec_octet_at(s, 15)
}

/// Value of one hex digit byte, or `None` where the byte is no hex digit.
fn parse_hex_digit(b: u8) -> (r: Option<u8>)
    ensures
        r is Some <==> spec_is_hex_digit(b),
        r is Some ==> r.unwrap() == spec_hex_val(b) && r.unwrap() < 16,
{
    if 48 <= b && b <= 57 {
        Some(b - 48)
    } else if 97 <= b && b <= 102 {
        Some(b - 87)
    } else if 65 <= b && b <= 70 {
        Some(b - 55)
    } else {
        None
    }
}

/// The octet at byte positions `pos` and `pos + 1`, or `None` where either
/// byte is no hex digit.
fn parse_octet(b: &[u8], pos: usize) -> (r: Option<u8>)
    requires
        pos + 2 <= b@.len(),
    ensures
        r is Some <==> spec_is_hex_digit(b@[pos as int]) && spec_is_hex_digit(b@[pos as int + 1]),
        r is Some ==> r.unwrap() == spec_octet_at(b@, pos as int),
{
    let hi = match parse_hex_digit(b[pos]) {
        Some(v) => v,
        None => {
            return None;
        },
    };
    let lo = match parse_hex_digit(b[pos + 1]) {
        Some(v) => v,
        None => {
            return None;
        },
    };
    Some(hi * 16 + lo)
}

/// Parses the colon-delimited string form of a hardware address, accepting
/// exactly the well-formed forms and returning the 48-bit value of the six
/// octets.
pub fn parse_mac(s: &str) -> (r: Option<MacAddr>)
    ensures
        r is Some <==> spec_is_mac_str(s.spec_bytes()),
        r is Some ==> r.unwrap().bits == spec_mac_bits(s.spec_bytes()) && r.unwrap().wf(),
{
    let b: &[u8] = s.as_bytes();
    if b.len() != MAC_STR_LEN {
        return None;
    }
    if b[2] != 58 || b[5] != 58 || b[8] != 58 || b[11] != 58 || b[14] != 58 {
        return None;
    }
    let o0 = match parse_octet(b, 0) {
        Some(v) => v,
        None => {
            return None;
        },
    };
    let o1 = match parse_octet(b, 3) {
        Some(v) => v,
        None => {
            return None;
        },
    };
    let o2 = match parse_octet(b, 6) {
        Some(v) => v,
        None => {
            return None;
        },
    };
    let o3 = match parse_octet(b, 9) {
        Some(v) => v,
        None => {
            return None;
        },
    };
    let o4 = match parse_octet(b, 12) {
        Some(v) => v,
        None => {
            return None;
        },
    };
    let o5 = match parse_octet(b, 15) {
        Some(v) => v,
        None => {
            return None;
        },
    };
    proof {
        assert forall|i: int| #![trigger b@[i]] 0 <= i < MAC_STR_LEN implies (if i % 3 == 2 {
            b@[i] == 58
        } else {
            spec_is_hex_digit(b@[i])
        }) by {
            assert(i == 0 || i == 1 || i == 2 || i == 3 || i == 4 || i == 5 || i == 6 || i == 7
                || i == 8 || i == 9 || i == 10 || i == 11 || i == 12 || i == 13 || i == 14 || i
                == 15 || i == 16);
        }
        assert(spec_is_mac_str(b@));
    }
    let bits: u64 = ((((o0 as u64 * 256 + o1 as u64) * 256 + o2 as u64) * 256 + o3 as u64) * 256
        + o4 as u64) * 256 + o5 as u64;
    Some(MacAddr { bits })
}

} // verus!
