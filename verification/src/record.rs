//! The address record: the pair of an optional IPv4 and an optional IPv6
//! address, treated as one comparable unit. Addresses are held as their
//! numeric values (an IPv4 address is its 32-bit value in network order, an
//! IPv6 address its 128-bit value), so that every comparison and encoding in
//! this crate is over plain integers.

use vstd::prelude::*;

use crate::codec::push_u128_be;
use crate::codec::push_u32_be;
use crate::codec::read_u128_be;
use crate::codec::read_u32_be;
use crate::codec::lemma_u128_be_round_trip;
use crate::codec::lemma_u32_be_round_trip;
use crate::codec::spec_u128_be;
use crate::codec::spec_u128_from_be;
use crate::codec::spec_u32_be;
use crate::codec::spec_u32_from_be;

verus! {

/// An IP version without an associated address.
#[derive(Clone, Copy, Debug, PartialEq, Eq, Structural)]
pub enum IpVersion {
    V4,
    V6,
}

/// A single IP address of either family, as its numeric value.
#[derive(Clone, Copy, Debug, PartialEq, Eq, Structural)]
pub enum IpAddress {
    V4(u32),
    V6(u128),
}

impl IpAddress {
    /// The version an address belongs to.
    pub open spec fn spec_version(self) -> IpVersion {
        match self {
            IpAddress::V4(_) => IpVersion::V4,
            IpAddress::V6(_) => IpVersion::V6,
        }
    }

    /// Returns the version of this address.
    pub fn version(&self) -> (v: IpVersion)
        ensures
            v == self.spec_version(),
    {
        match self {
            IpAddress::V4(_) => IpVersion::V4,
            IpAddress::V6(_) => IpVersion::V6,
        }
    }
}

/// The update sent to each provider: at most one address per family.
/// Absence of a family is legal and distinct from any present address.
/// Two updates are equal iff both fields are pairwise equal.
#[derive(Clone, Copy, Debug, PartialEq, Eq, Structural)]
pub struct IpUpdate {
    pub v4: Option<u32>,
    pub v6: Option<u128>,
}

impl IpUpdate {
    /// True when neither family carries an address.
    pub open spec fn spec_is_empty(self) -> bool {
        self.v4 is None && self.v6 is None
    }

    /// Returns whether the update carries no address at all.
    pub fn is_empty(&self) -> (r: bool)
        ensures
            r == self.spec_is_empty(),
    {
        self.v4.is_none() && self.v6.is_none()
    }

    /// The addresses present in the update, IPv4 first, as (version, address)
    /// pairs.
    pub open spec fn spec_entries(self) -> Seq<(IpVersion, IpAddress)> {
        let s4: Seq<(IpVersion, IpAddress)> = match self.v4 {
            Some(a) => seq![(IpVersion::V4, IpAddress::V4(a))],
            None => seq![],
        };
        let s6: Seq<(IpVersion, IpAddress)> = match self.v6 {
            Some(a) => seq![(IpVersion::V6, IpAddress::V6(a))],
            None => seq![],
        };
        s4 + s6
    }

    /// Lists the present addresses with their versions, IPv4 first.
    pub fn iter(&self) -> (r: Vec<(IpVersion, IpAddress)>)
        ensures
            r@ == self.spec_entries(),
    {
        let mut r: Vec<(IpVersion, IpAddress)> = Vec::new();
        if let Some(a) = self.v4 {
            r.push((IpVersion::V4, IpAddress::V4(a)));
        }
        if let Some(a) = self.v6 {
            r.push((IpVersion::V6, IpAddress::V6(a)));
        }
        proof {
            assert(r@ =~= self.spec_entries());
        }
        r
    }
}

/// The decimal digit `d` as text.
pub open spec fn spec_digit_str(d: int) -> Seq<char>
    recommends
        0 <= d <= 9,
{
    if d == 0 {
        "0"@
    } else if d == 1 {
        "1"@
    } else if d == 2 {
        "2"@
    } else if d == 3 {
        "3"@
    } else if d == 4 {
        "4"@
    } else if d == 5 {
        "5"@
    } else if d == 6 {
        "6"@
    } else if d == 7 {
        "7"@
    } else if d == 8 {
        "8"@
    } else {
        "9"@
    }
}

/// A byte in decimal, without leading zeros.
pub open spec fn spec_u8_decimal(x: u8) -> Seq<char> {
    if x < 10 {
        spec_digit_str(x as int)
    } else if x < 100 {
        spec_digit_str(x as int / 10) + spec_digit_str(x as int % 10)
    } else {
        spec_digit_str(x as int / 100) + spec_digit_str((x as int / 10) % 10) + spec_digit_str(
            x as int % 10,
        )
    }
}

/// An IPv4 address value in dotted decimal, highest byte first.
pub open spec fn spec_ipv4_text(x: u32) -> Seq<char> {
    spec_u8_decimal(((x >> 24) & 0xff) as u8) + "."@ + spec_u8_decimal(((x >> 16) & 0xff) as u8)
        + "."@ + spec_u8_decimal(((x >> 8) & 0xff) as u8) + "."@ + spec_u8_decimal((x & 0xff) as u8)
}

/// Appends one decimal digit.
fn push_digit(out: &mut String, d: u8)
    requires
        d < 10,
    ensures
        final(out)@ == old(out)@ + spec_digit_str(d as int),
{
    match d {
        0 => out.append("0"),
        1 => out.append("1"),
        2 => out.append("2"),
        3 => out.append("3"),
        4 => out.append("4"),
        5 => out.append("5"),
        6 => out.append("6"),
        7 => out.append("7"),
        8 => out.append("8"),
        _ => out.append("9"),
    }
}

/// Appends a byte in decimal, without leading zeros.
fn push_u8_decimal(out: &mut String, x: u8)
    ensures
        final(out)@ == old(out)@ + spec_u8_decimal(x),
{
    if x >= 100 {
        push_digit(out, x / 100);
        push_digit(out, (x / 10) % 10);
        push_digit(out, x % 10);
        proof {
            assert(out@ =~= old(out)@ + spec_u8_decimal(x));
        }
    } else if x >= 10 {
        push_digit(out, x / 10);
        push_digit(out, x % 10);
        proof {
            assert(out@ =~= old(out)@ + spec_u8_decimal(x));
        }
    } else {
        push_digit(out, x);
    }
}

/// Renders an IPv4 address value in dotted decimal, as it is published in a
/// DNS record's content.
pub fn format_ipv4(x: u32) -> (r: String)
    ensures
        r@ == spec_ipv4_text(x),
{
    let mut out = String::new();
    push_u8_decimal(&mut out, ((x >> 24) & 0xff) as u8);
    out.append(".");
    push_u8_decimal(&mut out, ((x >> 16) & 0xff) as u8);
    out.append(".");
    push_u8_decimal(&mut out, ((x >> 8) & 0xff) as u8);
    out.append(".");
    push_u8_decimal(&mut out, (x & 0xff) as u8);
    proof {
        assert(out@ =~= spec_ipv4_text(x));
    }
    out
}

/// The tag byte of an encoded record: which address families are present.
pub open spec fn spec_record_tag(r: IpUpdate) -> u8 {
    match (r.v4, r.v6) {
        (Option::None, Option::None) => 0u8,
        (Option::Some(_), Option::None) => 1u8,
        (Option::None, Option::Some(_)) => 2u8,
        (Option::Some(_), Option::Some(_)) => 3u8,
    }
}

/// The encoded form of a record: one tag byte naming the present families,
/// then the IPv4 value as four big-endian bytes if present, then the IPv6
/// value as sixteen big-endian bytes if present.
pub open spec fn spec_encode_record(r: IpUpdate) -> Seq<u8> {
    seq![spec_record_tag(r)] + (match r.v4 {
        Option::Some(a) => spec_u32_be(a),
        Option::None => seq![],
    }) + (match r.v6 {
        Option::Some(a) => spec_u128_be(a),
        Option::None => seq![],
    })
}

/// The record read back from encoded bytes, or `None` when the bytes are not
/// the encoding of any record (unknown tag, or a length that does not match
/// the tag exactly).
pub open spec fn spec_decode_record(s: Seq<u8>) -> Option<IpUpdate> {
    if s.len() < 1 {
        Option::None
    } else if s[0] == 0 {
        if s.len() == 1 {
            Option::Some(IpUpdate { v4: Option::None, v6: Option::None })
        } else {
            Option::None
        }
    } else if s[0] == 1 {
        if s.len() == 5 {
            Option::Some(
                IpUpdate { v4: Option::Some(spec_u32_from_be(s[1], s[2], s[3], s[4])), v6: Option::None },
            )
        } else {
            Option::None
        }
    } else if s[0] == 2 {
        if s.len() == 17 {
            Option::Some(
                IpUpdate { v4: Option::None, v6: Option::Some(spec_u128_from_be(s.subrange(1, 17))) },
            )
        } else {
            Option::None
        }
    } else if s[0] == 3 {
        if s.len() == 21 {
            Option::Some(
                IpUpdate {
                    v4: Option::Some(spec_u32_from_be(s[1], s[2], s[3], s[4])),
                    v6: Option::Some(spec_u128_from_be(s.subrange(5, 21))),
                },
            )
        } else {
            Option::None
        }
    } else {
        Option::None
    }
}

/// Decoding an encoded record gives the record back.
pub proof fn lemma_record_round_trip(r: IpUpdate)
    ensures
        spec_decode_record(spec_encode_record(r)) == Option::Some(r),
{
    let s = spec_encode_record(r);
    match (r.v4, r.v6) {
        (Option::None, Option::None) => {
            assert(s.len() == 1);
        },
        (Option::Some(a), Option::None) => {
            lemma_u32_be_round_trip(a);
            assert(s.len() == 5);
            assert(s[1] == spec_u32_be(a)[0] && s[2] == spec_u32_be(a)[1] && s[3] == spec_u32_be(
                a,
            )[2] && s[4] == spec_u32_be(a)[3]);
        },
        (Option::None, Option::Some(b)) => {
            lemma_u128_be_round_trip(b);
            assert(s.len() == 17);
            assert(s.subrange(1, 17) =~= spec_u128_be(b));
        },
        (Option::Some(a), Option::Some(b)) => {
            lemma_u32_be_round_trip(a);
            lemma_u128_be_round_trip(b);
            assert(s.len() == 21);
            assert(s[1] == spec_u32_be(a)[0] && s[2] == spec_u32_be(a)[1] && s[3] == spec_u32_be(
                a,
            )[2] && s[4] == spec_u32_be(a)[3]);
            assert(s.subrange(5, 21) =~= spec_u128_be(b));
        },
    }
}

impl IpUpdate {
    /// Encodes the record for the cache payload.
    pub fn encode(&self) -> (out: Vec<u8>)
        ensures
            out@ == spec_encode_record(*self),
    {
        let mut out: Vec<u8> = Vec::new();
        let tag: u8 = match (self.v4, self.v6) {
            (None, None) => 0,
            (Some(_), None) => 1,
            (None, Some(_)) => 2,
            (Some(_), Some(_)) => 3,
        };
        out.push(tag);
        if let Some(a) = self.v4 {
            push_u32_be(&mut out, a);
        }
        if let Some(b) = self.v6 {
            push_u128_be(&mut out, b);
        }
        proof {
            assert(out@ =~= spec_encode_record(*self));
        }
        out
    }

    /// Decodes a cache payload back into a record; `None` when the bytes are
    /// not a well-formed encoding.
    pub fn decode(bytes: &[u8]) -> (r: Option<IpUpdate>)
        ensures
            r == spec_decode_record(bytes@),
    {
        let n = bytes.len();
        if n < 1 {
            return None;
        }
        let tag = bytes[0];
        if tag == 0 {
            if n == 1 {
                Some(IpUpdate { v4: None, v6: None })
            } else {
                None
            }
        } else if tag == 1 {
            if n == 5 {
                let a = read_u32_be(bytes[1], bytes[2], bytes[3], bytes[4]);
                Some(IpUpdate { v4: Some(a), v6: None })
            } else {
                None
            }
        } else if tag == 2 {
            if n == 17 {
                let b = read_u128_be(bytes, 1);
                Some(IpUpdate { v4: None, v6: Some(b) })
            } else {
                None
            }
        } else if tag == 3 {
            if n == 21 {
                let a = read_u32_be(bytes[1], bytes[2], bytes[3], bytes[4]);
                let b = read_u128_be(bytes, 5);
                Some(IpUpdate { v4: Some(a), v6: Some(b) })
            } else {
                None
            }
        } else {
            None
        }
    }
}

} // verus!
