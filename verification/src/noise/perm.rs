//! Permutation table.
//!
//! A table of the 256 byte values in an order that a seed determines, and
//! a hash of integer coordinates through the table.

use rand::seq::SliceRandom;
use rand::SeedableRng;
use rand_xorshift::XorShiftRng;
use vstd::prelude::*;

verus! {

pub const TABLE_SIZE: usize = 256;

/// The order into which `SliceRandom::shuffle` brings `values` when it
/// draws from an `XorShiftRng` that was made from `seed`.
pub uninterp spec fn shuffled(seed: Seq<u8>, values: Seq<u8>) -> Seq<u8>;

/// `XorShiftRng::from_seed` and `SliceRandom::shuffle`: shuffles the values
/// in place with a generator made from the seed. The shuffle only swaps
/// elements, so the values stay the same up to their order.
#[verifier::external_body]
fn shuffle_seeded(values: &mut Vec<u8>, seed: [u8; 16])
    ensures
        final(values)@ == shuffled(seed@, old(values)@),
        final(values)@.len() == old(values)@.len(),
        final(values)@.to_multiset() == old(values)@.to_multiset(),
{
    let mut rng = XorShiftRng::from_seed(seed);
    values.shuffle(&mut rng);
}

/// The byte of `seed` at position `k`, counted from the least significant.
pub open spec fn seed_byte(seed: u32, k: nat) -> u8 {
    if k == 0 {
        (seed as int % 256) as u8
    } else if k == 1 {
        (seed as int / 256 % 256) as u8
    } else if k == 2 {
        (seed as int / 65536 % 256) as u8
    } else {
        (seed as int / 16777216 % 256) as u8
    }
}

/// The sixteen bytes from which the generator for a seed is made: a one
/// and three zeros, then the four bytes of the seed three times over.
pub open spec fn seed_bytes(seed: u32) -> Seq<u8> {
    Seq::new(
        16,
        |i: int|
            if i == 0 {
                1u8
            } else if i < 4 {
                0u8
            } else {
                seed_byte(seed, (i % 4) as nat)
            },
    )
}

/// The bytes 0 to 255 in rising order.
pub open spec fn identity() -> Seq<u8> {
    Seq::new(256, |i: int| i as u8)
}

/// The low eight bits of a coordinate.
pub open spec fn low_byte(a: isize) -> u8 {
    (a as int % 256) as u8
}

/// The table position reached after the first `upto` coordinates: the low
/// byte of the first coordinate, and from then on the table's value at
/// the position so far, combined by exclusive or with the low byte of the
/// next coordinate.
pub open spec fn hash_position(values: Seq<u8>, to_hash: Seq<isize>, upto: nat) -> u8
    decreases upto,
{
    if upto <= 1 {
        low_byte(to_hash[0])
    } else {
        values[hash_position(values, to_hash, (upto - 1) as nat) as int] ^ low_byte(
            to_hash[upto - 1],
        )
    }
}

/// The sixteen bytes from which the generator for a seed is made.
pub fn create_seed(seed: u32) -> (bytes: [u8; 16])
    ensures
        bytes@ == seed_bytes(seed),
{
    assert((seed & 0xff) == seed % 256) by (bit_vector);
    assert(((seed >> 8) & 0xff) == seed / 256 % 256) by (bit_vector);
    assert(((seed >> 16) & 0xff) == seed / 65536 % 256) by (bit_vector);
    assert(((seed >> 24) & 0xff) == seed / 16777216 % 256) by (bit_vector);
    let b0: u8 = (seed & 0xff) as u8;
    let b1: u8 = ((seed >> 8) & 0xff) as u8;
    let b2: u8 = ((seed >> 16) & 0xff) as u8;
    let b3: u8 = ((seed >> 24) & 0xff) as u8;
    let bytes: [u8; 16] = [1, 0, 0, 0, b0, b1, b2, b3, b0, b1, b2, b3, b0, b1, b2, b3];
    assert(bytes@ =~= seed_bytes(seed));
    bytes
}

#[derive(Debug, Clone, Copy, PartialEq, Eq)]
pub struct PermutationTable {
    values: [u8; 256],
}

impl PermutationTable {
    /// The bytes of the table, in order.
    pub closed spec fn values(self) -> Seq<u8> {
        self.values@
    }

    /// Deterministically generates a new permutation table based on a `u32` seed value.
    ///
    /// Internally this uses a `XorShiftRng`, but we don't really need to worry
    /// about cryptographic security when working with procedural noise.
    pub fn new(seed: u32) -> (table: Self)
        ensures
            table.values() == shuffled(seed_bytes(seed), identity()),
            table.values().len() == 256,
            table.values().to_multiset() == identity().to_multiset(),
    {
        let bytes = create_seed(seed);
        let mut seq: Vec<u8> = Vec::new();
        let mut x: usize = 0;
        while x < 256
            invariant
                x <= 256,
                seq@.len() == x,
                forall|i: int| 0 <= i < x ==> seq@[i] == i as u8,
            decreases 256 - x,
        {
            seq.push(x as u8);
            x += 1;
        }
        assert(seq@ =~= identity());
        shuffle_seeded(&mut seq, bytes);
        Self::from_values(&seq)
    }

    /// The table that holds the given 256 bytes.
    pub fn from_values(values: &Vec<u8>) -> (table: Self)
        requires
            values@.len() == 256,
        ensures
            table.values() == values@,
    {
        let mut table: [u8; 256] = [0; 256];
        let mut i: usize = 0;
        while i < 256
            invariant
                i <= 256,
                values@.len() == 256,
                forall|k: int| 0 <= k < i ==> table@[k] == values@[k],
            decreases 256 - i,
        {
            table[i] = values[i];
            i += 1;
        }
        assert(table@ =~= values@);
        Self { values: table }
    }

    /// The bytes of the table, in order.
    pub fn table(&self) -> (values: &[u8; 256])
        ensures
            values@ == self.values(),
    {
        &self.values
    }

    /// Hashes coordinates to a byte of the table. At least one coordinate
    /// is needed.
    pub fn sample(&self, to_hash: &[isize]) -> (hash: usize)
        requires
            to_hash@.len() > 0,
        ensures
            hash == self.values()[hash_position(
                self.values(),
                to_hash@,
                to_hash@.len(),
            ) as int],
    {
        let mut index: u8 = Self::low(to_hash[0]);
        let mut i: usize = 1;
        while i < to_hash.len()
            invariant
                1 <= i <= to_hash@.len(),
                index == hash_position(self.values@, to_hash@, i as nat),
            decreases to_hash@.len() - i,
        {
            index = self.values[index as usize] ^ Self::low(to_hash[i]);
            i += 1;
        }
        self.values[index as usize] as usize
    }

    fn low(a: isize) -> (byte: u8)
        ensures
            byte == low_byte(a),
    {
        let wide: i64 = a as i64;
        assert((wide & 0xff) == wide % 256) by (bit_vector);
        assert(0 <= (wide & 0xff) < 256) by (bit_vector);
        (wide & 0xff) as u8
    }
}

} // verus!
