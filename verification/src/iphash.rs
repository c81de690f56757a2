//! Display tokens: the short hexadecimal digest under which peers see an
//! address.

use crate::address::Address;
use std::collections::hash_map::DefaultHasher;
use std::hash::Hasher;
use vstd::prelude::*;
use vstd::std_specs::hash::*;

verus! {

/// The sixteen lowercase hexadecimal digits, by value.
pub open spec fn hex_digit(nibble: int) -> char {
    seq!['0', '1', '2', '3', '4', '5', '6', '7', '8', '9', 'a', 'b', 'c', 'd', 'e', 'f'][nibble]
}

/// Whether `c` is one of the sixteen lowercase hexadecimal digits.
pub open spec fn is_hex_digit(c: char) -> bool {
    exists|n: int| 0 <= n < 16 && c == hex_digit(n)
}

/// The lowercase hexadecimal text of `data`: two digits for each byte, the
/// high half first.
pub open spec fn hex_string(data: Seq<u8>) -> Seq<char> {
    Seq::new(
        2 * data.len(),
        |i: int|
            if i % 2 == 0 {
                hex_digit(data[i / 2] as int / 16)
            } else {
                hex_digit(data[i / 2] as int % 16)
            },
    )
}

/// Octet `i` of the `width` low octets of `bits`, counted from the most
/// significant one.
pub open spec fn octet(bits: u128, width: nat, i: int) -> u8 {
    ((bits >> ((8 * (width - 1 - i)) as u128)) & 0xff) as u8
}

/// The `width` low octets of `bits`, most significant first.
pub open spec fn big_endian(bits: u128, width: nat) -> Seq<u8> {
    Seq::new(width, |i: int| octet(bits, width, i))
}

/// What is fed to the hasher for an address: one octet that tells the two
/// families apart, then the octets of the address.
pub open spec fn hashed_input(addr: Address) -> Seq<Seq<u8>> {
    seq![seq![addr.width() as u8], big_endian(addr.bits(), addr.width())]
}

/// The 64-bit digest of an address.
pub open spec fn digest(addr: Address) -> u64 {
    DefaultHasher::spec_finish(hashed_input(addr))
}

/// The display token of an address: the sixteen hexadecimal digits of its
/// digest, most significant octet first.
pub open spec fn address_token(addr: Address) -> Seq<char> {
    hex_string(big_endian(digest(addr) as u128, 8))
}

/// `hex::encode` on a byte slice: the text holds two lowercase hexadecimal
/// digits for each byte of `data`, in order, the high half of a byte first.
#[verifier::external_body]
fn hex_encode(data: &[u8]) -> (text: String)
    ensures
        text@ == hex_string(data@),
{
    hex::encode(data)
}

/// The `width` low octets of `bits`, most significant first.
pub fn big_endian_bytes(bits: u128, width: usize) -> (out: Vec<u8>)
    requires
        width <= 16,
    ensures
        out@ == big_endian(bits, width as nat),
{
    let mut out: Vec<u8> = Vec::new();
    let mut i: usize = 0;
    while i < width
        invariant
            i <= width <= 16,
            out@.len() == i,
            forall|k: int| 0 <= k < i ==> out@[k] == octet(bits, width as nat, k),
        decreases width - i,
    {
        let shift: u128 = 8 * ((width - 1 - i) as u128);
        let byte: u8 = ((bits >> shift) & 0xff) as u8;
        out.push(byte);
        i += 1;
    }
    out
}

/// A value that can be shown to peers as a short opaque token.
pub trait HashToString {
    /// The token, as a function of the value alone.
    spec fn token(&self) -> Seq<char>;

    /// The display token of the value. Equal values give equal tokens.
    fn hash_to_string(&self) -> (text: String)
        ensures
            text@ == self.token(),
    ;
}

impl HashToString for Address {
    open spec fn token(&self) -> Seq<char> {
        address_token(*self)
    }

    fn hash_to_string(&self) -> (text: String) {
        let mut hasher = DefaultHasher::new();
        let family: [u8; 1] = [self.octet_count() as u8];
        hasher.write(family.as_slice());
        let octets = big_endian_bytes(self.to_bits(), self.octet_count());
        hasher.write(octets.as_slice());
        assert(family@ =~= seq![self.width() as u8]);
        assert(hasher@ =~~= hashed_input(*self));
        let hash = big_endian_bytes(hasher.finish() as u128, 8);
        hex_encode(hash.as_slice())
    }
}

/// A display token is sixteen lowercase hexadecimal digits.
pub proof fn token_is_sixteen_hex_digits(addr: Address)
    ensures
        addr.token().len() == 16,
        forall|i: int| 0 <= i < 16 ==> is_hex_digit(#[trigger] addr.token()[i]),
{
    let data = big_endian(digest(addr) as u128, 8);
    assert forall|i: int| 0 <= i < 16 implies is_hex_digit(#[trigger] addr.token()[i]) by {
        let byte = data[i / 2] as int;
        if i % 2 == 0 {
            assert(addr.token()[i] == hex_digit(byte / 16));
            assert(0 <= byte / 16 < 16);
        } else {
            assert(addr.token()[i] == hex_digit(byte % 16));
            assert(0 <= byte % 16 < 16);
        }
    }
}

/// The token depends on the address alone: the same address has the same
/// token, whenever and however often it is asked for.
pub proof fn token_is_stable(a: Address, b: Address)
    requires
        a == b,
    ensures
        a.token() == b.token(),
{
}

/// Two values with the same octet at `shift` agree in those eight bits.
proof fn same_octet_same_bits(x: u128, y: u128, shift: u128)
    requires
        shift < 128,
        ((x >> shift) & 0xff) as u8 == ((y >> shift) & 0xff) as u8,
    ensures
        (x >> shift) & 0xff == (y >> shift) & 0xff,
{
    assert((x >> shift) & 0xff < 256) by (bit_vector);
    assert((y >> shift) & 0xff < 256) by (bit_vector);
}

/// Four octets determine the 32 bits that they were taken from.
proof fn four_octets_determine_the_bits(x: u128, y: u128)
    requires
        x <= u32::MAX,
        y <= u32::MAX,
        big_endian(x, 4) == big_endian(y, 4),
    ensures
        x == y,
{
    assert forall|i: int| 0 <= i < 4 implies octet(x, 4, i) == octet(y, 4, i) by {
        assert(big_endian(x, 4)[i] == octet(x, 4, i));
        assert(big_endian(y, 4)[i] == octet(y, 4, i));
    }
    assert(octet(x, 4, 0) == octet(y, 4, 0));
    assert(octet(x, 4, 1) == octet(y, 4, 1));
    assert(octet(x, 4, 2) == octet(y, 4, 2));
    assert(octet(x, 4, 3) == octet(y, 4, 3));
    same_octet_same_bits(x, y, 24);
    same_octet_same_bits(x, y, 16);
    same_octet_same_bits(x, y, 8);
    same_octet_same_bits(x, y, 0);
    assert(x == y) by (bit_vector)
        requires
            x <= 0xffff_ffff,
            y <= 0xffff_ffff,
            (x >> 24) & 0xff == (y >> 24) & 0xff,
            (x >> 16) & 0xff == (y >> 16) & 0xff,
            (x >> 8) & 0xff == (y >> 8) & 0xff,
            (x >> 0) & 0xff == (y >> 0) & 0xff,
    ;
}

/// Sixteen octets determine the 128 bits that they were taken from.
proof fn sixteen_octets_determine_the_bits(x: u128, y: u128)
    requires
        big_endian(x, 16) == big_endian(y, 16),
    ensures
        x == y,
{
    assert forall|i: int| 0 <= i < 16 implies octet(x, 16, i) == octet(y, 16, i) by {
        assert(big_endian(x, 16)[i] == octet(x, 16, i));
        assert(big_endian(y, 16)[i] == octet(y, 16, i));
    }
    assert(octet(x, 16, 0) == octet(y, 16, 0));
    assert(octet(x, 16, 1) == octet(y, 16, 1));
    assert(octet(x, 16, 2) == octet(y, 16, 2));
    assert(octet(x, 16, 3) == octet(y, 16, 3));
    assert(octet(x, 16, 4) == octet(y, 16, 4));
    assert(octet(x, 16, 5) == octet(y, 16, 5));
    assert(octet(x, 16, 6) == octet(y, 16, 6));
    assert(octet(x, 16, 7) == octet(y, 16, 7));
    assert(octet(x, 16, 8) == octet(y, 16, 8));
    assert(octet(x, 16, 9) == octet(y, 16, 9));
    assert(octet(x, 16, 10) == octet(y, 16, 10));
    assert(octet(x, 16, 11) == octet(y, 16, 11));
    assert(octet(x, 16, 12) == octet(y, 16, 12));
    assert(octet(x, 16, 13) == octet(y, 16, 13));
    assert(octet(x, 16, 14) == octet(y, 16, 14));
    assert(octet(x, 16, 15) == octet(y, 16, 15));
    same_octet_same_bits(x, y, 120);
    same_octet_same_bits(x, y, 112);
    same_octet_same_bits(x, y, 104);
    same_octet_same_bits(x, y, 96);
    same_octet_same_bits(x, y, 88);
    same_octet_same_bits(x, y, 80);
    same_octet_same_bits(x, y, 72);
    same_octet_same_bits(x, y, 64);
    same_octet_same_bits(x, y, 56);
    same_octet_same_bits(x, y, 48);
    same_octet_same_bits(x, y, 40);
    same_octet_same_bits(x, y, 32);
    same_octet_same_bits(x, y, 24);
    same_octet_same_bits(x, y, 16);
    same_octet_same_bits(x, y, 8);
    same_octet_same_bits(x, y, 0);
    assert(x == y) by (bit_vector)
        requires
            (x >> 120) & 0xff == (y >> 120) & 0xff,
            (x >> 112) & 0xff == (y >> 112) & 0xff,
            (x >> 104) & 0xff == (y >> 104) & 0xff,
            (x >> 96) & 0xff == (y >> 96) & 0xff,
            (x >> 88) & 0xff == (y >> 88) & 0xff,
            (x >> 80) & 0xff == (y >> 80) & 0xff,
            (x >> 72) & 0xff == (y >> 72) & 0xff,
            (x >> 64) & 0xff == (y >> 64) & 0xff,
            (x >> 56) & 0xff == (y >> 56) & 0xff,
            (x >> 48) & 0xff == (y >> 48) & 0xff,
            (x >> 40) & 0xff == (y >> 40) & 0xff,
            (x >> 32) & 0xff == (y >> 32) & 0xff,
            (x >> 24) & 0xff == (y >> 24) & 0xff,
            (x >> 16) & 0xff == (y >> 16) & 0xff,
            (x >> 8) & 0xff == (y >> 8) & 0xff,
            (x >> 0) & 0xff == (y >> 0) & 0xff,
    ;
}

/// Different addresses are hashed from different bytes: where two tokens
/// are equal though the addresses differ, the hasher has mapped two inputs
/// to one digest.
pub proof fn hashed_input_tells_addresses_apart(a: Address, b: Address)
    requires
        hashed_input(a) == hashed_input(b),
    ensures
        a == b,
{
    assert(hashed_input(a)[0][0] == a.width() as u8);
    assert(hashed_input(b)[0][0] == b.width() as u8);
    assert(a.width() == b.width());
    assert(hashed_input(a)[1] == big_endian(a.bits(), a.width()));
    assert(hashed_input(b)[1] == big_endian(b.bits(), b.width()));
    match (a, b) {
        (Address::V4(x), Address::V4(y)) => {
            four_octets_determine_the_bits(x as u128, y as u128);
        },
        (Address::V6(x), Address::V6(y)) => {
            sixteen_octets_determine_the_bits(x, y);
        },
        _ => {},
    }
}

} // verus!
