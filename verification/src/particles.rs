//! Morton (Z-order) codes used to sort particles for memory locality.

use vstd::prelude::*;

verus! {

/// The ten low bits of `x` moved to every third position: bit `i` of `x`
/// becomes bit `3·i` of the result (i < 10); all other bits are zero.
pub open spec fn spread_spec(x: u32) -> u32 {
    ((x >> 0u32) & 1) << 0u32 | ((x >> 1u32) & 1) << 3u32 | ((x >> 2u32) & 1) << 6u32 | ((x >> 3u32)
        & 1) << 9u32 | ((x >> 4u32) & 1) << 12u32 | ((x >> 5u32) & 1) << 15u32 | ((x >> 6u32) & 1)
        << 18u32 | ((x >> 7u32) & 1) << 21u32 | ((x >> 8u32) & 1) << 24u32 | ((x >> 9u32) & 1)
        << 27u32
}

/// Interleaves `x`, `y`, `z` bit by bit: x in bits 0, 3, 6, …; y in bits
/// 1, 4, 7, …; z in bits 2, 5, 8, … (ten bits of each).
pub open spec fn morton_spec(x: u32, y: u32, z: u32) -> u32 {
    spread_spec(x) | spread_spec(y) << 1u32 | spread_spec(z) << 2u32
}

pub open spec fn spread_step(v: u32, shift: u32, mask: u32) -> u32 {
    (v | (v << shift)) & mask
}

/// Spreads the ten low bits of `x` to every third bit.
pub fn spread_bits(x: u32) -> (r: u32)
    ensures
        r == spread_spec(x),
{
    let v0 = x & 0x3FF;
    let v1 = (v0 | (v0 << 16u32)) & 0x030000FF;
    let v2 = (v1 | (v1 << 8u32)) & 0x0300F00F;
    let v3 = (v2 | (v2 << 4u32)) & 0x030C30C3;
    let v4 = (v3 | (v3 << 2u32)) & 0x09249249;
    assert(v4 == spread_spec(x)) by (bit_vector)
        requires
            v0 == x & 0x3FF,
            v1 == spread_step(v0, 16, 0x030000FF),
            v2 == spread_step(v1, 8, 0x0300F00F),
            v3 == spread_step(v2, 4, 0x030C30C3),
            v4 == spread_step(v3, 2, 0x09249249),
    ;
    v4
}

/// Morton code of a cell `(x, y, z)` of a 1024³ grid.
pub fn morton_encode(x: u32, y: u32, z: u32) -> (r: u32)
    ensures
        r == morton_spec(x, y, z),
{
    spread_bits(x) | (spread_bits(y) << 1u32) | (spread_bits(z) << 2u32)
}

/// Law: distinct cells of a 1024³ grid have distinct Morton codes.
pub proof fn law_morton_injective(x1: u32, y1: u32, z1: u32, x2: u32, y2: u32, z2: u32)
    requires
        x1 < 1024 && y1 < 1024 && z1 < 1024,
        x2 < 1024 && y2 < 1024 && z2 < 1024,
        morton_spec(x1, y1, z1) == morton_spec(x2, y2, z2),
    ensures
        x1 == x2 && y1 == y2 && z1 == z2,
{
    assert(x1 == x2 && y1 == y2 && z1 == z2) by (bit_vector)
        requires
            x1 < 1024 && y1 < 1024 && z1 < 1024,
            x2 < 1024 && y2 < 1024 && z2 < 1024,
            morton_spec(x1, y1, z1) == morton_spec(x2, y2, z2),
    ;
}

/// Law: the code of a cell keeps the bits of each coordinate apart, so the
/// coordinates can be read back from it.
pub proof fn law_morton_components(x: u32, y: u32, z: u32)
    requires
        x < 1024 && y < 1024 && z < 1024,
    ensures
        morton_spec(x, y, z) & 0x09249249 == spread_spec(x),
        (morton_spec(x, y, z) >> 1u32) & 0x09249249 == spread_spec(y),
        (morton_spec(x, y, z) >> 2u32) & 0x09249249 == spread_spec(z),
        morton_spec(x, y, z) < 0x4000_0000,
{
    assert(morton_spec(x, y, z) & 0x09249249 == spread_spec(x)) by (bit_vector);
    assert((morton_spec(x, y, z) >> 1u32) & 0x09249249 == spread_spec(y)) by (bit_vector);
    assert((morton_spec(x, y, z) >> 2u32) & 0x09249249 == spread_spec(z)) by (bit_vector);
    assert(morton_spec(x, y, z) < 0x4000_0000) by (bit_vector);
}

/// Morton code of a cell `(x, y, z)`.
pub open spec fn cell_code(c: (u32, u32, u32)) -> u32 {
    morton_spec(c.0, c.1, c.2)
}

/// Calls `slice::sort_unstable_by_key` with the first component as key. Its
/// contract is believed, not proved: as the standard library documents, the
/// result holds the same pairs, ordered by key; the order of pairs with equal
/// keys is left open (the sort is unstable).
#[verifier::external_body]
fn sort_by_code(v: &mut Vec<(u32, usize)>)
    ensures
        final(v)@.to_multiset() == old(v)@.to_multiset(),
        forall|i: int, j: int| 0 <= i <= j < final(v)@.len() ==> final(v)@[i].0 <= final(v)@[j].0,
{
    v.sort_unstable_by_key(|p| p.0);
}

/// The order in which to lay out cells for memory locality: a permutation of
/// the cell indices along which the Morton codes do not decrease. Cells with
/// equal codes may come in either order.
pub fn morton_order(cells: &Vec<(u32, u32, u32)>) -> (order: Vec<usize>)
    ensures
        order.len() == cells.len(),
        forall|k: int| 0 <= k < order.len() ==> order[k] < cells.len(),
        order@.no_duplicates(),
        forall|i: int, j: int|
            0 <= i <= j < order.len() ==> cell_code(cells@[order[i] as int]) <= cell_code(
                cells@[order[j] as int],
            ),
{
    let n = cells.len();
    let mut keyed: Vec<(u32, usize)> = Vec::new();
    let mut i: usize = 0;
    while i < n
        invariant
            n == cells@.len(),
            i <= n,
            keyed@.len() == i,
            forall|k: int| 0 <= k < i ==> #[trigger] keyed@[k] == (cell_code(cells@[k]), k as usize),
        decreases n - i,
    {
        let c = cells[i];
        keyed.push((morton_encode(c.0, c.1, c.2), i));
        i = i + 1;
    }
    let ghost orig = keyed@;
    assert(orig.no_duplicates()) by {
        assert forall|a: int, b: int| 0 <= a < orig.len() && 0 <= b < orig.len() && a != b implies orig[a]
            != orig[b] by {
            assert(orig[a].1 == a as usize);
            assert(orig[b].1 == b as usize);
        }
    }
    sort_by_code(&mut keyed);
    let ghost sorted = keyed@;
    proof {
        orig.lemma_multiset_has_no_duplicates();
        orig.to_multiset_ensures();
        sorted.to_multiset_ensures();
        assert(sorted.len() == n);
        assert forall|x: (u32, usize)| sorted.to_multiset().contains(x) implies sorted.to_multiset().count(
            x,
        ) == 1 by {
            assert(orig.to_multiset().contains(x));
        }
        sorted.lemma_multiset_has_no_duplicates_conv();
        assert forall|k: int| 0 <= k < n implies (#[trigger] sorted[k]).1 < n && sorted[k].0
            == cell_code(cells@[sorted[k].1 as int]) by {
            assert(sorted.contains(sorted[k]));
            assert(sorted.to_multiset().count(sorted[k]) > 0);
            assert(orig.contains(sorted[k]));
            let j = choose|j: int| 0 <= j < orig.len() && orig[j] == sorted[k];
            assert(orig[j] == (cell_code(cells@[j]), j as usize));
        }
    }
    let mut order: Vec<usize> = Vec::new();
    let mut k: usize = 0;
    while k < n
        invariant
            n == cells@.len(),
            keyed@ == sorted,
            sorted.len() == n,
            k <= n,
            order@.len() == k,
            forall|m: int| 0 <= m < k ==> #[trigger] order@[m] == sorted[m].1,
        decreases n - k,
    {
        order.push(keyed[k].1);
        k = k + 1;
    }
    proof {
        assert forall|a: int, b: int| 0 <= a < n && 0 <= b < n && a != b implies order@[a]
            != order@[b] by {
            if order@[a] == order@[b] {
                assert(sorted[a].1 == sorted[b].1);
                assert(sorted[a].0 == cell_code(cells@[sorted[a].1 as int]));
                assert(sorted[b].0 == cell_code(cells@[sorted[b].1 as int]));
                assert(sorted[a] == sorted[b]);
            }
        }
        assert forall|a: int, b: int| 0 <= a <= b < n implies cell_code(cells@[order@[a] as int])
            <= cell_code(cells@[order@[b] as int]) by {
            assert(sorted[a].0 <= sorted[b].0);
            assert(sorted[a].0 == cell_code(cells@[sorted[a].1 as int]));
            assert(sorted[b].0 == cell_code(cells@[sorted[b].1 as int]));
        }
    }
    order
}

} // verus!
