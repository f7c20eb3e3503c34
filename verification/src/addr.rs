//! Address identifiers of the mesh network.
//!
//! A peer destination and a link are both named by a fixed-length
//! 16-byte hash.  The bridge never inspects the hash beyond comparing
//! identifiers for equality, so the model carries the 16 bytes as one
//! 128-bit value.  The configured target peer arrives as a hex-encoded
//! string; a malformed identifier is rejected before the bridge starts.

use vstd::prelude::*;
use vstd::string::StringSliceAdditionalSpecFns;

verus! {

/// Fixed-length identifier (a 16-byte hash) naming a peer destination
/// on the mesh network, held as one 128-bit value in big-endian digit
/// order of its hex form.
#[derive(Clone, Copy, PartialEq, Eq, Structural, Debug)]
pub struct PeerAddress {
    pub id: u128,
}

/// Identifier of an established link, the same 16-byte hash shape as a
/// peer address.  The bridge only stores and compares it.
#[derive(Clone, Copy, PartialEq, Eq, Structural, Debug)]
pub struct LinkId {
    pub id: u128,
}

/// Why a configured peer identifier was rejected.
#[derive(Clone, Copy, PartialEq, Eq, Structural, Debug)]
pub enum AddressParseError {
    /// Fewer than 32 hex digits.
    TooShort,
    /// A byte among the first 32 is not an ASCII hex digit.
    NotHex,
}

/// An ASCII byte that is a hex digit.
pub open spec fn is_hex_digit(b: u8) -> bool {
    (48 <= b <= 57) || (97 <= b <= 102) || (65 <= b <= 70)
}

/// Value of an ASCII hex digit.
pub open spec fn hex_digit(b: u8) -> u8
    recommends
        is_hex_digit(b),
{
    if 48 <= b <= 57 {
        (b - 48) as u8
    } else if 97 <= b <= 102 {
        (b - 87) as u8
    } else {
        (b - 55) as u8
    }
}

/// A well-formed textual peer identifier: at least 32 bytes, the first
/// 32 of which are ASCII hex digits.  Bytes after the first 32 are not
/// part of the identifier.
pub open spec fn valid_address_hex(bs: Seq<u8>) -> bool {
    bs.len() >= 32 && forall|i: int| 0 <= i < 32 ==> is_hex_digit(#[trigger] bs[i])
}

/// Value of the first `n` hex digits of `bs`, most significant first.
pub open spec fn address_value(bs: Seq<u8>, n: int) -> nat
    decreases n,
{
    if n <= 0 {
        0
    } else {
        (address_value(bs, n - 1) * 16 + hex_digit(bs[n - 1])) as nat
    }
}

/// 16 raised to `n`.
spec fn pow16(n: nat) -> nat
    decreases n,
{
    if n == 0 {
        1nat
    } else {
        16 * pow16((n - 1) as nat)
    }
}

/// The value of `n` hex digits is below `16^n`.
proof fn lemma_address_value_bound(bs: Seq<u8>, n: int)
    requires
        0 <= n <= bs.len(),
        forall|i: int| 0 <= i < n ==> is_hex_digit(#[trigger] bs[i]),
    ensures
        address_value(bs, n) < pow16(n as nat),
    decreases n,
{
    if n > 0 {
        lemma_address_value_bound(bs, n - 1);
    }
}

/// Maps an ASCII byte to its hex digit value, or `None` when it is not
/// a hex digit.
fn hex_digit_value(b: u8) -> (r: Option<u8>)
    ensures
        r is Some <==> is_hex_digit(b),
        r matches Some(v) ==> v == hex_digit(b),
{
    if 48 <= b && b <= 57 {
        Some(b - 48)
    } else if 97 <= b && b <= 102 {
        Some(b - 87)
    } else if 65 <= b && b <= 70 {
        Some(b - 55)
    } else {
        None
    }
}

/// Parses a peer identifier from the raw bytes of its hex form.
///
/// The identifier is the value of the first 32 hex digits; the parse
/// succeeds exactly on well-formed input and names the offending shape
/// otherwise.
pub fn parse_address_bytes(bs: &[u8]) -> (r: Result<PeerAddress, AddressParseError>)
    ensures
        r is Ok <==> valid_address_hex(bs@),
        r matches Ok(a) ==> a.id == address_value(bs@, 32),
        r == Err::<PeerAddress, AddressParseError>(AddressParseError::TooShort) <==> bs@.len()
            < 32,
        r == Err::<PeerAddress, AddressParseError>(AddressParseError::NotHex) <==> (bs@.len() >= 32
            && exists|i: int| 0 <= i < 32 && !is_hex_digit(#[trigger] bs@[i])),
{
    if bs.len() < 32 {
        return Err(AddressParseError::TooShort);
    }
    let mut acc: u128 = 0;
    let mut i: usize = 0;
    while i < 32
        invariant
            0 <= i <= 32,
            bs@.len() >= 32,
            forall|k: int| 0 <= k < i ==> is_hex_digit(#[trigger] bs@[k]),
            acc == address_value(bs@, i as int),
        decreases 32 - i,
    {
        let b = bs[i];
        match hex_digit_value(b) {
            Some(d) => {
                proof {
                    lemma_address_value_bound(bs@, i as int);
                    reveal_with_fuel(pow16, 33);
                    assert(pow16(i as nat) <= pow16(31)) by {
                        lemma_pow16_monotone(i as nat, 31);
                    }
                }
                acc = acc * 16 + (d as u128);
            },
            None => {
                return Err(AddressParseError::NotHex);
            },
        }
        i = i + 1;
    }
    Ok(PeerAddress { id: acc })
}

/// `16^m <= 16^n` when `m <= n`.
proof fn lemma_pow16_monotone(m: nat, n: nat)
    requires
        m <= n,
    ensures
        pow16(m) <= pow16(n),
    decreases n,
{
    if m < n {
        lemma_pow16_monotone(m, (n - 1) as nat);
        assert(pow16(n) == 16 * pow16((n - 1) as nat));
    }
}

/// Parses the configured target peer identifier from its hex string.
pub fn parse_peer_address(s: &str) -> (r: Result<PeerAddress, AddressParseError>)
    ensures
        r is Ok <==> valid_address_hex(s.spec_bytes()),
        r matches Ok(a) ==> a.id == address_value(s.spec_bytes(), 32),
        r == Err::<PeerAddress, AddressParseError>(AddressParseError::TooShort) <==> s.spec_bytes().len() < 32,
        r == Err::<PeerAddress, AddressParseError>(AddressParseError::NotHex) <==> (
            s.spec_bytes().len() >= 32 && exists|i: int|
                0 <= i < 32 && !is_hex_digit(#[trigger] s.spec_bytes()[i])),
{
    parse_address_bytes(s.as_bytes())
}

/// The one peer-match predicate shared by discovery and the outbound
/// pump: an event belongs to the bridge exactly when its peer
/// identifier equals the configured target.
pub fn peer_matches(event_peer: &PeerAddress, target: &PeerAddress) -> (r: bool)
    ensures
        r <==> *event_peer == *target,
{
    event_peer.id == target.id
}

} // verus!
