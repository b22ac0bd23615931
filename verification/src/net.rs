//! Plain-value views of network-stack data: an IPv4 address, the
//! configuration a DHCP lease yields, and a parser for dotted-quad text.

use vstd::prelude::*;

verus! {

/// An IPv4 address as four octets.
#[derive(Clone, Copy, PartialEq, Eq, Structural, Debug)]
pub struct Ipv4Addr {
    /// Most significant octet.
    pub o0: u8,
    /// Second octet.
    pub o1: u8,
    /// Third octet.
    pub o2: u8,
    /// Least significant octet.
    pub o3: u8,
}

/// The IPv4 configuration a DHCP lease yields: address, gateway, prefix
/// length. Cleared on link loss.
#[derive(Clone, Copy, PartialEq, Eq, Structural, Debug)]
pub struct Ipv4Config {
    /// The leased address.
    pub address: Ipv4Addr,
    /// The default gateway, when the lease names one.
    pub gateway: Option<Ipv4Addr>,
    /// The network mask as a prefix length, at most 32.
    pub prefix_len: u8,
}

/// ASCII `.`, the separator of a dotted quad.
pub const SEPARATOR: u8 = 46;

/// Whether `b` is an ASCII decimal digit.
pub open spec fn is_digit(b: u8) -> bool {
    48 <= b <= 57
}

/// Whether every byte of `s` is an ASCII decimal digit.
pub open spec fn all_digits(s: Seq<u8>) -> bool {
    forall|i: int| 0 <= i < s.len() ==> is_digit(s[i])
}

/// The number a digit string denotes in base ten; leading zeros are
/// allowed and carry no meaning.
pub open spec fn digits_value(s: Seq<u8>) -> int
    decreases s.len(),
{
    if s.len() == 0 {
        0
    } else {
        digits_value(s.drop_last()) * 10 + (s.last() - 48)
    }
}

/// Whether `s` is the text of one octet: at least one byte, digits only,
/// value at most 255.
pub open spec fn is_octet_text(s: Seq<u8>) -> bool {
    &&& s.len() >= 1
    &&& all_digits(s)
    &&& digits_value(s) <= 255
}

/// How `s` splits at dots, accumulated left to right: a dot closes the
/// current part and opens an empty one, any other byte extends the current
/// part. The empty text has one empty part.
pub open spec fn split_dots(s: Seq<u8>) -> Seq<Seq<u8>>
    decreases s.len(),
{
    if s.len() == 0 {
        seq![Seq::<u8>::empty()]
    } else {
        let pre = split_dots(s.drop_last());
        if s.last() == SEPARATOR {
            pre.push(Seq::<u8>::empty())
        } else {
            pre.update(pre.len() - 1, pre.last().push(s.last()))
        }
    }
}

/// What a dotted quad denotes: four octet texts separated by dots, or
/// nothing. This is the grammar [`parse_ipv4`] is proved against.
pub open spec fn parse_quad(s: Seq<u8>) -> Option<Ipv4Addr> {
    let parts = split_dots(s);
    if parts.len() == 4 && is_octet_text(parts[0]) && is_octet_text(parts[1]) && is_octet_text(
        parts[2],
    ) && is_octet_text(parts[3]) {
        Some(
            Ipv4Addr {
                o0: digits_value(parts[0]) as u8,
                o1: digits_value(parts[1]) as u8,
                o2: digits_value(parts[2]) as u8,
                o3: digits_value(parts[3]) as u8,
            },
        )
    } else {
        None
    }
}

/// The value of a digit string, capped just above the octet range so that
/// an overlong part stays recognisably invalid.
pub open spec fn capped_value(s: Seq<u8>) -> u32 {
    if 0 <= digits_value(s) <= 255 {
        digits_value(s) as u32
    } else {
        256
    }
}

/// A digit string denotes a nonnegative number.
proof fn lemma_digits_value_nonneg(s: Seq<u8>)
    requires
        all_digits(s),
    ensures
        digits_value(s) >= 0,
    decreases s.len(),
{
    if s.len() > 0 {
        assert(all_digits(s.drop_last()));
        lemma_digits_value_nonneg(s.drop_last());
    }
}

/// Parses dotted-quad IPv4 text: exactly four dot-separated runs of
/// digits, each denoting at most 255. Returns the address, or nothing on
/// any malformed input instead of failing.
pub fn parse_ipv4(s: &[u8]) -> (r: Option<Ipv4Addr>)
    ensures
        r == parse_quad(s@),
{
    let n = s.len();
    // Per completed part: capped value, nonempty, all digits.
    let mut vals: Vec<(u32, bool, bool)> = Vec::new();
    let mut acc: u32 = 0;
    let mut nonempty: bool = false;
    let mut digits: bool = true;
    let mut i: usize = 0;
    while i < n
        invariant
            n == s@.len(),
            i <= n,
            acc <= 256,
            ({
                let parts = split_dots(s@.take(i as int));
                &&& parts.len() == vals@.len() + 1
                &&& (forall|j: int|
                    0 <= j < vals@.len() ==> {
                        &&& (#[trigger] vals@[j]).1 == (parts[j].len() >= 1)
                        &&& vals@[j].2 == all_digits(parts[j])
                        &&& (vals@[j].2 ==> vals@[j].0 == capped_value(parts[j]))
                        &&& vals@[j].0 <= 256
                    })
                &&& nonempty == (parts.last().len() >= 1)
                &&& digits == all_digits(parts.last())
                &&& (digits ==> acc == capped_value(parts.last()))
            }),
        decreases n - i,
    {
        let c = s[i];
        proof {
            assert(s@.take(i + 1 as int).drop_last() =~= s@.take(i as int));
        }
        let ghost parts = split_dots(s@.take(i as int));
        let ghost parts2 = split_dots(s@.take(i + 1 as int));
        if c == SEPARATOR {
            proof {
                assert(parts2 =~= parts.push(Seq::<u8>::empty()));
            }
            vals.push((acc, nonempty, digits));
            acc = 0;
            nonempty = false;
            digits = true;
        } else {
            let ghost ext = parts.last().push(c);
            proof {
                assert(parts2 =~= parts.update(parts.len() - 1, ext));
                assert(ext.drop_last() =~= parts.last());
                assert(parts2.last() == ext);
            }
            if 48 <= c && c <= 57 {
                proof {
                    if all_digits(parts.last()) {
                        assert forall|k: int| 0 <= k < ext.len() implies is_digit(ext[k]) by {
                            if k < ext.len() - 1 {
                                assert(ext[k] == parts.last()[k]);
                            }
                        }
                    } else {
                        let w = choose|k: int|
                            0 <= k < parts.last().len() && !is_digit(parts.last()[k]);
                        assert(ext[w] == parts.last()[w]);
                        assert(!all_digits(ext));
                    }
                }
                if digits {
                    let t: u32 = acc * 10 + (c - 48) as u32;
                    acc = if t > 255 {
                        256
                    } else {
                        t
                    };
                }
                nonempty = true;
            } else {
                proof {
                    assert(ext.last() == c);
                    assert(!all_digits(ext));
                }
                digits = false;
                nonempty = true;
            }
        }
        i = i + 1;
    }
    proof {
        assert(s@.take(n as int) =~= s@);
    }
    if vals.len() != 3 {
        return None;
    }
    let (v0, ne0, dg0) = vals[0];
    let (v1, ne1, dg1) = vals[1];
    let (v2, ne2, dg2) = vals[2];
    let ok0 = ne0 && dg0 && v0 <= 255;
    let ok1 = ne1 && dg1 && v1 <= 255;
    let ok2 = ne2 && dg2 && v2 <= 255;
    let ok3 = nonempty && digits && acc <= 255;
    proof {
        let parts = split_dots(s@);
        if all_digits(parts[0]) {
            lemma_digits_value_nonneg(parts[0]);
        }
        if all_digits(parts[1]) {
            lemma_digits_value_nonneg(parts[1]);
        }
        if all_digits(parts[2]) {
            lemma_digits_value_nonneg(parts[2]);
        }
        if all_digits(parts[3]) {
            lemma_digits_value_nonneg(parts[3]);
        }
    }
    if ok0 && ok1 && ok2 && ok3 {
        Some(Ipv4Addr { o0: v0 as u8, o1: v1 as u8, o2: v2 as u8, o3: acc as u8 })
    } else {
        None
    }
}

} // verus!
