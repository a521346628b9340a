use vstd::prelude::*;
use vstd::string::StringSliceAdditionalSpecFns;

use crate::errors::Error;

verus! {

/// Number of raw bytes in an address.
pub const ADDRESS_LEN: usize = 32;

/// Number of bytes in the canonical textual encoding: two lowercase hex
/// digits per address byte, then two hex digits of checksum.
pub const CANONICAL_TEXT_LEN: usize = 66;

/// Opaque fixed-length identifier for an account on a chain.
///
/// Exactly one canonical textual encoding maps to exactly one `Address`;
/// parsing by [`resolve`] is total and rejects malformed input.
#[derive(Debug, PartialEq, Eq)]
pub struct Address {
    bytes: Vec<u8>,
}

impl View for Address {
    type V = Seq<u8>;

    closed spec fn view(&self) -> Seq<u8> {
        self.bytes@
    }
}

impl Clone for Address {
    /// Cloning preserves the address bytes.
    fn clone(&self) -> (r: Self)
        ensures
            r@ == self@,
    {
        let mut bytes: Vec<u8> = Vec::new();
        let mut i: usize = 0;
        while i < self.bytes.len()
            invariant
                i <= self.bytes@.len(),
                bytes@ =~= self.bytes@.take(i as int),
            decreases self.bytes@.len() - i,
        {
            bytes.push(self.bytes[i]);
            proof {
                assert(self.bytes@.take(i + 1) =~= self.bytes@.take(i as int).push(
                    self.bytes@[i as int],
                ));
            }
            i = i + 1;
        }
        proof {
            assert(bytes@ =~= self.bytes@);
        }
        Address { bytes }
    }
}

impl Address {
    /// A well-formed address holds exactly `ADDRESS_LEN` raw bytes.
    pub open spec fn wf(&self) -> bool {
        self@.len() == ADDRESS_LEN
    }

    /// The raw bytes of the address.
    pub fn as_bytes(&self) -> (r: &Vec<u8>)
        ensures
            r@ == self@,
    {
        &self.bytes
    }

    /// The canonical textual encoding of this address, as ASCII bytes: two
    /// lowercase hex digits per address byte, then the two hex digits of
    /// the checksum. [`resolve`] accepts exactly this text and returns
    /// these bytes; by [`lemma_canonical_text_unique`] no other text
    /// resolves to them.
    pub fn canonical_text_bytes(&self) -> (r: Vec<u8>)
        requires
            self.wf(),
        ensures
            is_canonical_text(r@),
            decoded_bytes(r@.take(2 * ADDRESS_LEN as int)) == self@,
    {
        let mut text: Vec<u8> = Vec::new();
        let mut sum: u8 = 0;
        let mut i: usize = 0;
        while i < ADDRESS_LEN
            invariant
                self.wf(),
                i <= ADDRESS_LEN,
                text@.len() == 2 * i,
                forall|j: int| 0 <= j < 2 * i ==> is_hex_digit(#[trigger] text@[j]),
                forall|j: int| 0 <= j < i ==> decoded_byte(text@, j) == self@[j],
                sum == checksum_of(self@.take(i as int)),
            decreases ADDRESS_LEN - i,
        {
            let b = self.bytes[i];
            text.push(nibble_text(b / 16));
            text.push(nibble_text(b % 16));
            proof {
                assert(self@.take(i + 1).drop_last() =~= self@.take(i as int));
                assert(self@.take(i + 1).last() == self@[i as int]);
                assert(decoded_byte(text@, i as int) == 16 * hex_digit_value(
                    text@[2 * i as int],
                ) + hex_digit_value(text@[2 * i as int + 1]));
            }
            sum = (((sum as u16) + (b as u16)) % 256) as u8;
            i = i + 1;
        }
        text.push(nibble_text(sum / 16));
        text.push(nibble_text(sum % 16));
        proof {
            assert(self@.take(ADDRESS_LEN as int) =~= self@);
            assert(decoded_bytes(text@.take(2 * ADDRESS_LEN as int)) =~= self@);
            assert(decoded_byte(text@, ADDRESS_LEN as int) == 16 * hex_digit_value(
                text@[2 * ADDRESS_LEN as int],
            ) + hex_digit_value(text@[2 * ADDRESS_LEN as int + 1]));
        }
        text
    }
}

/// The lowercase hex digit byte of a nibble value.
fn nibble_text(v: u8) -> (r: u8)
    requires
        v < 16,
    ensures
        is_hex_digit(r),
        hex_digit_value(r) == v,
{
    if v < 10 {
        v + 48
    } else {
        v + 87
    }
}

/// Whether `b` is a byte of the canonical hex alphabet: `0`-`9` or `a`-`f`.
pub open spec fn is_hex_digit(b: u8) -> bool {
    (48 <= b && b <= 57) || (97 <= b && b <= 102)
}

/// The value of a canonical hex digit byte.
pub open spec fn hex_digit_value(b: u8) -> u8 {
    if 48 <= b && b <= 57 {
        (b - 48) as u8
    } else {
        (b - 87) as u8
    }
}

/// Every byte of `s` lies in the canonical hex alphabet.
pub open spec fn all_hex_digits(s: Seq<u8>) -> bool {
    forall|i: int| 0 <= i < s.len() ==> is_hex_digit(#[trigger] s[i])
}

/// The byte encoded by the hex digit pair at positions `2 * i` and
/// `2 * i + 1` of `s`.
pub open spec fn decoded_byte(s: Seq<u8>, i: int) -> u8 {
    (16 * hex_digit_value(s[2 * i]) + hex_digit_value(s[2 * i + 1])) as u8
}

/// The bytes encoded by the hex digit pairs of `s`.
pub open spec fn decoded_bytes(s: Seq<u8>) -> Seq<u8> {
    Seq::new((s.len() / 2) as nat, |i: int| decoded_byte(s, i))
}

/// The checksum of a byte sequence: the sum of its bytes, modulo 256.
pub open spec fn checksum_of(bytes: Seq<u8>) -> u8
    decreases bytes.len(),
{
    if bytes.len() == 0 {
        0
    } else {
        ((checksum_of(bytes.drop_last()) + bytes.last()) % 256) as u8
    }
}

/// Whether `s` is the canonical textual encoding of some address:
/// 64 hex digits of address bytes and 2 hex digits whose value equals the
/// checksum of the decoded address bytes.
pub open spec fn is_canonical_text(s: Seq<u8>) -> bool {
    &&& s.len() == CANONICAL_TEXT_LEN
    &&& all_hex_digits(s)
    &&& decoded_byte(s, ADDRESS_LEN as int)
        == checksum_of(decoded_bytes(s.take(2 * ADDRESS_LEN as int)))
}

/// Two hex digits with the same value are the same digit.
proof fn lemma_hex_digit_value_injective(x: u8, y: u8)
    requires
        is_hex_digit(x),
        is_hex_digit(y),
        hex_digit_value(x) == hex_digit_value(y),
    ensures
        x == y,
{
}

/// A decoded byte determines its two hex digits.
proof fn lemma_decoded_byte_determines_digits(s1: Seq<u8>, s2: Seq<u8>, i: int)
    requires
        0 <= 2 * i,
        2 * i + 1 < s1.len(),
        2 * i + 1 < s2.len(),
        is_hex_digit(s1[2 * i]),
        is_hex_digit(s1[2 * i + 1]),
        is_hex_digit(s2[2 * i]),
        is_hex_digit(s2[2 * i + 1]),
        decoded_byte(s1, i) == decoded_byte(s2, i),
    ensures
        s1[2 * i] == s2[2 * i],
        s1[2 * i + 1] == s2[2 * i + 1],
{
    lemma_hex_digit_value_injective(s1[2 * i], s2[2 * i]);
    lemma_hex_digit_value_injective(s1[2 * i + 1], s2[2 * i + 1]);
}

/// Exactly one canonical textual encoding maps to exactly one address: two
/// canonical texts that decode to the same address bytes are the same text.
pub proof fn lemma_canonical_text_unique(s1: Seq<u8>, s2: Seq<u8>)
    requires
        is_canonical_text(s1),
        is_canonical_text(s2),
        decoded_bytes(s1.take(2 * ADDRESS_LEN as int)) == decoded_bytes(
            s2.take(2 * ADDRESS_LEN as int),
        ),
    ensures
        s1 == s2,
{
    let d1 = decoded_bytes(s1.take(2 * ADDRESS_LEN as int));
    let d2 = decoded_bytes(s2.take(2 * ADDRESS_LEN as int));
    assert forall|k: int| 0 <= k < CANONICAL_TEXT_LEN implies s1[k] == s2[k] by {
        if k < 2 * ADDRESS_LEN {
            let i = k / 2;
            assert(d1[i] == decoded_byte(s1.take(2 * ADDRESS_LEN as int), i));
            assert(d2[i] == decoded_byte(s2.take(2 * ADDRESS_LEN as int), i));
            assert(decoded_byte(s1, i) == decoded_byte(s1.take(2 * ADDRESS_LEN as int), i));
            assert(decoded_byte(s2, i) == decoded_byte(s2.take(2 * ADDRESS_LEN as int), i));
            lemma_decoded_byte_determines_digits(s1, s2, i);
            assert(k == 2 * i || k == 2 * i + 1);
        } else {
            assert(decoded_byte(s1, ADDRESS_LEN as int) == decoded_byte(
                s2,
                ADDRESS_LEN as int,
            ));
            lemma_decoded_byte_determines_digits(s1, s2, ADDRESS_LEN as int);
            assert(k == 2 * ADDRESS_LEN || k == 2 * ADDRESS_LEN + 1);
        }
    }
    assert(s1 =~= s2);
}

/// The value of the hex digit `b`, or `None` when `b` is outside the
/// canonical alphabet.
fn hex_nibble(b: u8) -> (r: Option<u8>)
    ensures
        r is Some <==> is_hex_digit(b),
        r matches Some(v) ==> v == hex_digit_value(b) && v < 16,
{
    if 48 <= b && b <= 57 {
        Some(b - 48)
    } else if 97 <= b && b <= 102 {
        Some(b - 87)
    } else {
        None
    }
}

proof fn lemma_checksum_push(s: Seq<u8>, b: u8)
    ensures
        checksum_of(s.push(b)) == ((checksum_of(s) + b) % 256) as u8,
{
    assert(s.push(b).drop_last() =~= s);
    assert(s.push(b).last() == b);
}

/// Parses and validates the canonical textual encoding of an account
/// identifier. Succeeds exactly on canonical text and returns the decoded
/// address bytes; any malformed input is rejected with
/// `InvalidAddressFormat`. Pure and deterministic.
pub fn resolve(text: &str) -> (r: Result<Address, Error>)
    ensures
        r is Ok <==> is_canonical_text(text.spec_bytes()),
        r matches Ok(a) ==> a.wf() && a@ == decoded_bytes(
            text.spec_bytes().take(2 * ADDRESS_LEN as int),
        ),
        r matches Err(e) ==> e == Error::InvalidAddressFormat,
{
    let s: &[u8] = text.as_bytes();
    if s.len() != CANONICAL_TEXT_LEN {
        return Err(Error::InvalidAddressFormat);
    }
    let mut out: Vec<u8> = Vec::new();
    let mut sum: u8 = 0;
    let mut i: usize = 0;
    while i < ADDRESS_LEN
        invariant
            s@ == text.spec_bytes(),
            s@.len() == CANONICAL_TEXT_LEN,
            i <= ADDRESS_LEN,
            out@.len() == i,
            forall|j: int| 0 <= j < 2 * i ==> is_hex_digit(#[trigger] s@[j]),
            forall|j: int| 0 <= j < i ==> #[trigger] out@[j] == decoded_byte(s@, j),
            sum == checksum_of(out@),
        decreases ADDRESS_LEN - i,
    {
        let hi = match hex_nibble(s[2 * i]) {
            Some(v) => v,
            None => {
                return Err(Error::InvalidAddressFormat);
            },
        };
        let lo = match hex_nibble(s[2 * i + 1]) {
            Some(v) => v,
            None => {
                return Err(Error::InvalidAddressFormat);
            },
        };
        let byte: u8 = 16 * hi + lo;
        proof {
            lemma_checksum_push(out@, byte);
        }
        out.push(byte);
        sum = (((sum as u16) + (byte as u16)) % 256) as u8;
        i = i + 1;
    }
    let chi = match hex_nibble(s[2 * ADDRESS_LEN]) {
        Some(v) => v,
        None => {
            return Err(Error::InvalidAddressFormat);
        },
    };
    let clo = match hex_nibble(s[2 * ADDRESS_LEN + 1]) {
        Some(v) => v,
        None => {
            return Err(Error::InvalidAddressFormat);
        },
    };
    proof {
        assert(all_hex_digits(s@));
        assert(out@ =~= decoded_bytes(s@.take(2 * ADDRESS_LEN as int)));
    }
    let expected: u8 = 16 * chi + clo;
    if expected != sum {
        return Err(Error::InvalidAddressFormat);
    }
    Ok(Address { bytes: out })
}

} // verus!
