//! Account addresses: twenty bytes, written as forty hexadecimal digits.

use vstd::prelude::*;

verus! {

/// A 20-byte account address. Every pattern of twenty bytes is an address;
/// two addresses are the same when their bytes are.
#[derive(Clone, Copy, Debug, Eq, Ord, Hash)]
pub struct EthAddress {
    pub bytes: [u8; 20],
}

impl View for EthAddress {
    type V = Seq<u8>;

    open spec fn view(&self) -> Seq<u8> {
        self.bytes@
    }
}

impl PartialEq for EthAddress {
    fn eq(&self, other: &EthAddress) -> (r: bool) {
        self.same(other)
    }
}

impl vstd::std_specs::cmp::PartialEqSpecImpl for EthAddress {
    open spec fn obeys_eq_spec() -> bool {
        true
    }

    open spec fn eq_spec(&self, other: &EthAddress) -> bool {
        self@ == other@
    }
}

/// The four characters that may stand anywhere between the digits.
pub open spec fn is_blank(c: char) -> bool {
    c == ' ' || c == '\r' || c == '\n' || c == '\t'
}

/// The value of a hexadecimal digit, in either case; `None` for any other
/// character.
pub open spec fn hex_value(c: char) -> Option<int> {
    if '0' <= c && c <= '9' {
        Some(c as int - '0' as int)
    } else if 'a' <= c && c <= 'f' {
        Some(c as int - 'a' as int + 10)
    } else if 'A' <= c && c <= 'F' {
        Some(c as int - 'A' as int + 10)
    } else {
        None
    }
}

/// The text without a leading `0x`, if it has one.
pub open spec fn without_prefix(s: Seq<char>) -> Seq<char> {
    if s.len() >= 2 && s[0] == '0' && s[1] == 'x' {
        s.skip(2)
    } else {
        s
    }
}

/// The characters that count: what follows the prefix, blanks left out.
pub open spec fn digits_of(s: Seq<char>) -> Seq<char> {
    without_prefix(s).filter(|c: char| !is_blank(c))
}

/// The bytes that a text denotes as an address: exactly forty hexadecimal
/// digits after an optional `0x`, two digits to a byte, the high one first.
/// Any other text denotes none.
pub open spec fn address_bytes(s: Seq<char>) -> Option<Seq<u8>> {
    let d = digits_of(s);
    if d.len() == 40 && (forall|i: int| 0 <= i < 40 ==> (#[trigger] hex_value(d[i])) is Some) {
        Some(
            Seq::new(
                20,
                |i: int| (16 * hex_value(d[2 * i]).unwrap() + hex_value(d[2 * i + 1]).unwrap()) as u8,
            ),
        )
    } else {
        None
    }
}

/// The lower-case digit that writes `v`, for `v` from 0 to 15.
pub open spec fn hex_digit(v: int) -> char {
    if v < 10 {
        ('0' as int + v) as char
    } else {
        ('a' as int + v - 10) as char
    }
}

/// An address written out: `0x`, then two digits for each byte.
pub open spec fn hex_text(bytes: Seq<u8>) -> Seq<char> {
    seq!['0', 'x'] + Seq::new(
        2 * bytes.len(),
        |i: int|
            hex_digit(
                if i % 2 == 0 {
                    bytes[i / 2] as int / 16
                } else {
                    bytes[i / 2] as int % 16
                },
            ),
    )
}

/// Calls `sp_core::H160`'s `FromStr::from_str` and hands out the bytes of the
/// hash it returns. That function drops one leading `0x`, then reads two
/// hexadecimal digits for each of the twenty bytes, passing over blanks
/// (space, `\r`, `\n`, `\t`), and fails on any other character, on fewer than
/// forty digits and on anything but blanks after the fortieth.
#[verifier::external_body]
fn h160_from_str(s: &str) -> (r: Option<[u8; 20]>)
    ensures
        match r {
            Some(b) => address_bytes(s@) == Some(b@),
            None => address_bytes(s@) is None,
        },
{
    match s.parse::<sp_core::H160>() {
        Ok(h) => Some(h.0),
        Err(_) => None,
    }
}

impl EthAddress {
    /// The address that `src` holds.
    pub fn from_slice(src: &[u8]) -> (a: EthAddress)
        requires
            src@.len() == 20,
        ensures
            a@ == src@,
    {
        let mut bytes: [u8; 20] = [0u8; 20];
        let mut i: usize = 0;
        while i < 20
            invariant
                i <= 20,
                src@.len() == 20,
                forall|j: int| 0 <= j < i ==> bytes@[j] == src@[j],
            decreases 20 - i,
        {
            bytes[i] = src[i];
            i += 1;
        }
        assert(bytes@ =~= src@);
        EthAddress { bytes }
    }

    /// Reads an address from its text. `None` where the text denotes none.
    pub fn parse(s: &str) -> (r: Option<EthAddress>)
        ensures
            match r {
                Some(a) => address_bytes(s@) == Some(a@),
                None => address_bytes(s@) is None,
            },
    {
        match h160_from_str(s) {
            Some(bytes) => Some(EthAddress { bytes }),
            None => None,
        }
    }

    /// Byte-wise equality.
    pub fn same(&self, other: &EthAddress) -> (eq: bool)
        ensures
            eq == (self@ == other@),
    {
        let mut i: usize = 0;
        while i < 20
            invariant
                i <= 20,
                forall|j: int| 0 <= j < i ==> self.bytes@[j] == other.bytes@[j],
            decreases 20 - i,
        {
            if self.bytes[i] != other.bytes[i] {
                return false;
            }
            i += 1;
        }
        assert(self.bytes@ =~= other.bytes@);
        true
    }
}

} // verus!
