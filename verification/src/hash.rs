//! Perceptual image hashing: a 64-bit difference hash over a 9x8 grayscale
//! grid, and the Hamming distance between two such hashes.

use vstd::prelude::*;
use vstd::arithmetic::power2::{pow2, lemma2_to64, lemma2_to64_rest, lemma_pow2_unfold};

verus! {

/// Number of set bits in a 64-bit word.
pub open spec fn popcount(x: u64) -> nat
    decreases x,
{
    if x == 0 {
        0
    } else {
        (x % 2) as nat + popcount(x / 2)
    }
}

proof fn lemma_popcount_below_pow2(x: u64, k: nat)
    requires
        x < pow2(k),
    ensures
        popcount(x) <= k,
    decreases k,
{
    if x != 0 {
        if k == 0 {
            assert(pow2(0) == 1) by {
                lemma2_to64();
            }
        } else {
            assert(pow2(k) == 2 * pow2((k - 1) as nat)) by {
                lemma_pow2_unfold(k);
            }
            lemma_popcount_below_pow2(x / 2, (k - 1) as nat);
        }
    }
}

/// Every 64-bit word has at most 64 set bits.
pub proof fn lemma_popcount_le_64(x: u64)
    ensures
        popcount(x) <= 64,
{
    assert(pow2(64) == 0x10000000000000000) by {
        lemma2_to64();
        lemma2_to64_rest();
    }
    lemma_popcount_below_pow2(x, 64);
}

/// A hash is at distance zero from itself.
pub proof fn lemma_hamming_self(h: u64)
    ensures
        popcount(h ^ h) == 0,
{
    assert(h ^ h == 0) by (bit_vector);
}

/// Hamming distance does not depend on the order of its arguments.
pub proof fn lemma_hamming_symmetric(a: u64, b: u64)
    ensures
        popcount(a ^ b) == popcount(b ^ a),
{
    assert(a ^ b == b ^ a) by (bit_vector);
}

/// Number of bits that differ between the two hashes; always at most 64.
pub fn hamming_distance(hash1: u64, hash2: u64) -> (r: u32)
    ensures
        r == popcount(hash1 ^ hash2),
        r <= 64,
{
    let mut x: u64 = hash1 ^ hash2;
    let mut count: u32 = 0;
    proof {
        lemma_popcount_le_64(x);
    }
    while x != 0
        invariant
            count + popcount(x) == popcount(hash1 ^ hash2),
            count + popcount(x) <= 64,
        decreases x,
    {
        count = count + (x % 2) as u32;
        x = x / 2;
    }
    count
}

/// Comparison that decides bit `i` of the difference hash: pixel `i % 8` of
/// row `i / 8` in a 9-column grid, against its right-hand neighbour.
pub open spec fn grid_bit(grid: Seq<u8>, i: int) -> bool {
    grid[(i / 8) * 9 + (i % 8)] < grid[(i / 8) * 9 + (i % 8) + 1]
}

/// The difference hash restricted to its first `n` bits.
pub open spec fn dhash_prefix(grid: Seq<u8>, n: int) -> u64
    decreases n,
{
    if n <= 0 {
        0u64
    } else {
        dhash_prefix(grid, n - 1) | (if grid_bit(grid, n - 1) {
            1u64 << ((n - 1) as u64)
        } else {
            0u64
        })
    }
}

/// The 64-bit difference hash of a 9x8 grayscale grid (row-major, 72 bytes):
/// bit `row * 8 + col` is set when the pixel at `(row, col)` is darker than
/// its right-hand neighbour.
pub open spec fn spec_dhash(grid: Seq<u8>) -> u64 {
    dhash_prefix(grid, 64)
}

/// Bits above the prefix length are clear.
proof fn lemma_prefix_bit_zero(grid: Seq<u8>, n: int, j: u64)
    requires
        0 <= n <= j < 64,
    ensures
        (dhash_prefix(grid, n) >> j) & 1 == 0,
    decreases n,
{
    if n <= 0 {
        assert((0u64 >> j) & 1 == 0) by (bit_vector)
            requires
                j < 64,
        ;
    } else {
        lemma_prefix_bit_zero(grid, n - 1, j);
        let p = dhash_prefix(grid, n - 1);
        let m = (n - 1) as u64;
        if grid_bit(grid, n - 1) {
            assert(((p | (1u64 << m)) >> j) & 1 == 0) by (bit_vector)
                requires
                    (p >> j) & 1 == 0,
                    m < j,
                    j < 64,
            ;
        } else {
            assert(((p | 0u64) >> j) & 1 == (p >> j) & 1) by (bit_vector);
        }
    }
}

/// A bit settled by the prefix stays as it is while the prefix grows.
proof fn lemma_prefix_bit_stable(grid: Seq<u8>, n: int, i: u64)
    requires
        i < 64,
        i + 1 <= n <= 64,
    ensures
        (dhash_prefix(grid, n) >> i) & 1 == (dhash_prefix(grid, i as int + 1) >> i) & 1,
    decreases n,
{
    if n > i + 1 {
        lemma_prefix_bit_stable(grid, n - 1, i);
        let p = dhash_prefix(grid, n - 1);
        let m = (n - 1) as u64;
        if grid_bit(grid, n - 1) {
            assert(((p | (1u64 << m)) >> i) & 1 == (p >> i) & 1) by (bit_vector)
                requires
                    i < m,
                    m < 64,
            ;
        } else {
            assert(((p | 0u64) >> i) & 1 == (p >> i) & 1) by (bit_vector);
        }
    }
}

/// Bit `i` of the difference hash is exactly the grid comparison at `i`:
/// pixel `i % 8` of row `i / 8` against its right-hand neighbour.
pub proof fn lemma_spec_dhash_bit(grid: Seq<u8>, i: u64)
    requires
        i < 64,
    ensures
        (spec_dhash(grid) >> i) & 1 == (if grid_bit(grid, i as int) {
            1u64
        } else {
            0u64
        }),
{
    lemma_prefix_bit_stable(grid, 64, i);
    lemma_prefix_bit_zero(grid, i as int, i);
    let p = dhash_prefix(grid, i as int);
    assert(dhash_prefix(grid, i as int + 1) == p | (if grid_bit(grid, i as int) {
        1u64 << i
    } else {
        0u64
    }));
    if grid_bit(grid, i as int) {
        assert((p >> i) & 1 == 0 ==> ((p | (1u64 << i)) >> i) & 1 == 1) by (bit_vector)
            requires
                i < 64,
        ;
    } else {
        assert(((p | 0u64) >> i) & 1 == (p >> i) & 1) by (bit_vector);
    }
}

/// The difference hash of a hash at distance zero from itself, stated at the
/// grid level: hashing the same grid twice always gives distance zero.
pub proof fn lemma_dhash_self_distance(grid: Seq<u8>)
    ensures
        popcount(spec_dhash(grid) ^ spec_dhash(grid)) == 0,
{
    lemma_hamming_self(spec_dhash(grid));
}

/// Compute the difference hash of a 72-byte (9 columns by 8 rows) grid.
pub fn dhash_of_grid(grid: &Vec<u8>) -> (r: u64)
    requires
        grid@.len() == 72,
    ensures
        r == spec_dhash(grid@),
{
    let mut hash: u64 = 0;
    let mut y: usize = 0;
    while y < 8
        invariant
            grid@.len() == 72,
            y <= 8,
            hash == dhash_prefix(grid@, 8 * y),
        decreases 8 - y,
    {
        let mut x: usize = 0;
        while x < 8
            invariant
                grid@.len() == 72,
                y < 8,
                x <= 8,
                hash == dhash_prefix(grid@, 8 * y + x),
            decreases 8 - x,
        {
            let i: usize = y * 8 + x;
            proof {
                assert((8 * y + x) / 8 == y && (8 * y + x) % 8 == x) by (nonlinear_arith)
                    requires
                        0 <= y,
                        0 <= x < 8,
                ;
            }
            let left = grid[y * 9 + x];
            let right = grid[y * 9 + x + 1];
            let ghost prev: u64 = hash;
            if left < right {
                hash = hash | (1u64 << (i as u64));
            }
            proof {
                assert(grid_bit(grid@, 8 * y + x) == (left < right));
                if left < right {
                    assert(hash == prev | (1u64 << ((8 * y + x) as u64)));
                } else {
                    assert(prev | 0u64 == prev) by (bit_vector);
                }
                assert(hash == dhash_prefix(grid@, 8 * y + x + 1));
            }
            x = x + 1;
        }
        y = y + 1;
    }
    hash
}

#[verifier::external_type_specification]
#[verifier::external_body]
pub struct ExDynamicImage(image::DynamicImage);

/// The 9x8 grayscale downsample of an image, row-major: a function of the
/// pixel data alone, computed by the image codec.
pub uninterp spec fn gray_of(img: image::DynamicImage) -> Seq<u8>;

/// Relies on image::imageops::resize and image::imageops::grayscale: the
/// image downsampled to 9x8 and converted to single-channel luma is exactly
/// 72 bytes in row-major order, and depends on the image alone.
#[verifier::external_body]
fn downsample_gray(img: &image::DynamicImage) -> (r: Vec<u8>)
    ensures
        r@ == gray_of(*img),
        r@.len() == 72,
{
    let small = image::imageops::resize(img, 9, 8, image::imageops::FilterType::Nearest);
    image::imageops::grayscale(&small).into_raw()
}

/// Perceptual difference hash of an image: the image is downsampled to a 9x8
/// grayscale grid and each pixel is compared to its right-hand neighbour.
/// Deterministic: equal image values always hash alike.
pub fn dhash(image: &image::DynamicImage) -> (r: u64)
    ensures
        r == spec_dhash(gray_of(*image)),
{
    let grid = downsample_gray(image);
    dhash_of_grid(&grid)
}

} // verus!
