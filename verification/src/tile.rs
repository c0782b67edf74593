//! A dense cube of voxels stored as one flat vector, x fastest, then y, then z.

use vstd::prelude::*;

use vstd::arithmetic::div_mod::{
    lemma_div_denominator, lemma_div_pos_is_pos, lemma_fundamental_div_mod,
    lemma_fundamental_div_mod_converse, lemma_mod_pos_bound,
};

verus! {

/// The position of voxel `(x, y, z)` in the flat vector of a cube of side `s`.
pub open spec fn cell(s: int, x: int, y: int, z: int) -> int {
    x + s * (y + s * z)
}

/// The number of voxels of a cube of side `s`.
pub open spec fn cube(s: int) -> int {
    s * s * s
}

/// Whether `(x, y, z)` lies inside a cube of side `s`.
pub open spec fn in_cube(s: int, x: int, y: int, z: int) -> bool {
    0 <= x < s && 0 <= y < s && 0 <= z < s
}

/// The voxel of the old cube of side `s` that voxel `(x, y, z)` of a cube
/// of side `n` samples when the content is scaled: each coordinate scaled
/// by `s / n` and rounded down.
pub open spec fn sampled(old: Seq<Option<u8>>, s: int, n: int, x: int, y: int, z: int) -> Option<u8> {
    old[cell(s, x * s / n, y * s / n, z * s / n)]
}

/// Inside the cube, positions are in range and no two voxels share one.
proof fn lemma_cell(s: int, x: int, y: int, z: int, a: int, b: int, c: int)
    requires
        in_cube(s, x, y, z),
        in_cube(s, a, b, c),
    ensures
        0 <= cell(s, x, y, z) < cube(s),
        cell(s, x, y, z) == cell(s, a, b, c) ==> x == a && y == b && z == c,
{
    assert(0 <= y + s * z <= s * s - 1) by (nonlinear_arith)
        requires
            0 <= y < s,
            0 <= z < s,
    ;
    assert(0 <= cell(s, x, y, z) < cube(s)) by (nonlinear_arith)
        requires
            0 <= x < s,
            0 <= y + s * z <= s * s - 1,
            cell(s, x, y, z) == x + s * (y + s * z),
            cube(s) == s * s * s,
    ;
    if cell(s, x, y, z) == cell(s, a, b, c) {
        let j = cell(s, x, y, z);
        assert(j == (y + s * z) * s + x) by (nonlinear_arith)
            requires
                j == x + s * (y + s * z),
        ;
        assert(j == (b + s * c) * s + a) by (nonlinear_arith)
            requires
                j == a + s * (b + s * c),
        ;
        lemma_fundamental_div_mod_converse(j, s, y + s * z, x);
        lemma_fundamental_div_mod_converse(j, s, b + s * c, a);
        let q = y + s * z;
        assert(q == z * s + y) by (nonlinear_arith)
            requires
                q == y + s * z,
        ;
        assert(q == c * s + b) by (nonlinear_arith)
            requires
                q == b + s * c,
        ;
        lemma_fundamental_div_mod_converse(q, s, z, y);
        lemma_fundamental_div_mod_converse(q, s, c, b);
    }
}

/// Every position of the flat vector of a cube of side `s` is the cell of
/// one voxel of the cube.
proof fn lemma_index_cell(s: int, i: int)
    requires
        s > 0,
        0 <= i < cube(s),
    ensures
        in_cube(s, i % s, (i / s) % s, i / (s * s)),
        cell(s, i % s, (i / s) % s, i / (s * s)) == i,
{
    let q = i / s;
    let d = s * s;
    lemma_fundamental_div_mod(i, s);
    lemma_fundamental_div_mod(q, s);
    lemma_div_denominator(i, s, s);
    lemma_mod_pos_bound(i, s);
    lemma_mod_pos_bound(q, s);
    lemma_div_pos_is_pos(i, s);
    assert(d > 0) by (nonlinear_arith)
        requires
            s > 0,
            d == s * s,
    ;
    lemma_div_pos_is_pos(i, d);
    lemma_fundamental_div_mod(i, d);
    lemma_mod_pos_bound(i, d);
    let k = i / d;
    assert(k < s) by (nonlinear_arith)
        requires
            i == d * k + i % d,
            0 <= i % d,
            d > 0,
            d == s * s,
            i < s * s * s,
    ;
    assert(cell(s, i % s, q % s, k) == i) by (nonlinear_arith)
        requires
            i == s * q + i % s,
            q == s * (q / s) + q % s,
            q / s == k,
            cell(s, i % s, q % s, k) == i % s + s * (q % s + s * k),
    ;
}

/// Scaling a coordinate below `n` by `s / n` stays below `s`.
proof fn lemma_scaled(x: int, s: int, n: int)
    requires
        0 <= x < n,
        0 < s,
    ensures
        0 <= x * s / n < s,
{
    assert(0 <= x * s / n < s) by (nonlinear_arith)
        requires
            0 <= x < n,
            0 < s,
    ;
}

/// A read after a write inside the cube gives the written voxel back; every
/// other voxel of the cube reads as before.
pub proof fn lemma_read_after_write(
    s: int,
    data: Seq<Option<u8>>,
    x: int,
    y: int,
    z: int,
    v: Option<u8>,
    a: int,
    b: int,
    c: int,
)
    requires
        data.len() == cube(s),
        in_cube(s, x, y, z),
        in_cube(s, a, b, c),
    ensures
        data.update(cell(s, x, y, z), v)[cell(s, a, b, c)] == (if a == x && b == y && c == z {
            v
        } else {
            data[cell(s, a, b, c)]
        }),
{
    lemma_cell(s, x, y, z, a, b, c);
    lemma_cell(s, a, b, c, a, b, c);
}

/// Scaling to the same side samples every voxel from itself, so resizing a
/// cube to its own size keeps its content.
pub proof fn lemma_resize_same_size(data: Seq<Option<u8>>, s: int, x: int, y: int, z: int)
    requires
        in_cube(s, x, y, z),
    ensures
        sampled(data, s, s, x, y, z) == data[cell(s, x, y, z)],
{
    assert(x * s / s == x && y * s / s == y && z * s / s == z) by (nonlinear_arith)
        requires
            0 <= x < s,
            0 <= y < s,
            0 <= z < s,
    ;
}

/// Scaling a coordinate up by a whole factor and back gives it back.
proof fn lemma_scale_up_and_back(x: int, s: int, k: int)
    requires
        0 <= x < s,
        k > 0,
    ensures
        x * (s * k) / s == x * k,
        0 <= x * k < s * k,
        (x * k) * s / (s * k) == x,
{
    assert(x * (s * k) == (x * k) * s) by (nonlinear_arith);
    assert((x * k) * s / s == x * k) by (nonlinear_arith)
        requires
            s > 0,
    ;
    assert(0 <= x * k < s * k) by (nonlinear_arith)
        requires
            0 <= x < s,
            k > 0,
    ;
    assert((x * k) * s == x * (s * k)) by (nonlinear_arith);
    assert(x * (s * k) / (s * k) == x) by (nonlinear_arith)
        requires
            s * k > 0,
    ;
}

/// Resizing a cube up by a whole factor and then back to its side gives
/// its content back: `d2` is `d1` resized from side `s` to `s * k`, `d3`
/// is `d2` resized back to `s`.
pub proof fn lemma_resize_up_and_back(
    d1: Seq<Option<u8>>,
    d2: Seq<Option<u8>>,
    d3: Seq<Option<u8>>,
    s: int,
    k: int,
)
    requires
        s > 0,
        k > 0,
        forall|x: int, y: int, z: int|
            in_cube(s * k, x, y, z) ==> #[trigger] d2[cell(s * k, x, y, z)] == sampled(d1, s, s * k, x, y, z),
        forall|x: int, y: int, z: int|
            in_cube(s, x, y, z) ==> #[trigger] d3[cell(s, x, y, z)] == sampled(d2, s * k, s, x, y, z),
    ensures
        forall|x: int, y: int, z: int|
            in_cube(s, x, y, z) ==> #[trigger] d3[cell(s, x, y, z)] == d1[cell(s, x, y, z)],
{
    assert forall|x: int, y: int, z: int| in_cube(s, x, y, z) implies #[trigger] d3[cell(s, x, y, z)]
        == d1[cell(s, x, y, z)] by {
        lemma_scale_up_and_back(x, s, k);
        lemma_scale_up_and_back(y, s, k);
        lemma_scale_up_and_back(z, s, k);
        assert(d3[cell(s, x, y, z)] == d2[cell(s * k, x * k, y * k, z * k)]);
        assert(in_cube(s * k, x * k, y * k, z * k));
        assert(d2[cell(s * k, x * k, y * k, z * k)] == sampled(d1, s, s * k, x * k, y * k, z * k));
    }
}

/// A dense cube of voxels of side `size`; `None` is an empty voxel.
#[derive(Clone, Debug, PartialEq)]
pub struct Tile {
    pub size: usize,
    pub data: Vec<Option<u8>>,
}

impl Tile {
    /// The vector holds exactly one entry per voxel.
    pub open spec fn wf(&self) -> bool {
        self.data@.len() == cube(self.size as int)
    }

    /// A cube of side `size` in which every voxel holds material 0.
    pub fn new(size: usize) -> (t: Self)
        requires
            cube(size as int) <= usize::MAX,
        ensures
            t.wf(),
            t.size == size,
            forall|i: int| 0 <= i < t.data@.len() ==> t.data@[i] == Some(0u8),
    {
        assert(size * size <= size * size * size || size == 0) by (nonlinear_arith);
        assert(size * size <= usize::MAX) by (nonlinear_arith)
            requires
                size * size * size <= usize::MAX,
        ;
        let n = size * size * size;
        let data = vec![Some(0u8); n];
        Self { data, size }
    }

    /// The position of voxel `(x, y, z)` in the flat vector.
    fn index(&self, x: usize, y: usize, z: usize) -> (i: usize)
        requires
            self.wf(),
            in_cube(self.size as int, x as int, y as int, z as int),
        ensures
            i == cell(self.size as int, x as int, y as int, z as int),
            i < self.data@.len(),
    {
        let s = self.size;
        let len = self.data.len();
        proof {
            lemma_cell(s as int, x as int, y as int, z as int, x as int, y as int, z as int);
            assert(s * s <= s * s * s) by (nonlinear_arith)
                requires
                    s >= 1,
            ;
            assert(x + y * s + z * s * s == cell(s as int, x as int, y as int, z as int))
                by (nonlinear_arith);
            assert(0 <= y * s && 0 <= z * s * s && z * s <= s * s) by (nonlinear_arith)
                requires
                    y < s,
                    z < s,
            ;
            assert(z * s * s <= s * s * s) by (nonlinear_arith)
                requires
                    z < s,
            ;
        }
        x + y * s + z * s * s
    }

    /// The voxel at `(x, y, z)`; `None` outside the cube.
    pub fn get_voxel(&self, x: usize, y: usize, z: usize) -> (r: Option<u8>)
        requires
            self.wf(),
        ensures
            r == (if in_cube(self.size as int, x as int, y as int, z as int) {
                self.data@[cell(self.size as int, x as int, y as int, z as int)]
            } else {
                None
            }),
    {
        if x < self.size && y < self.size && z < self.size {
            self.data[self.index(x, y, z)]
        } else {
            None
        }
    }

    /// Stores `voxel` at `(x, y, z)`; outside the cube nothing changes.
    pub fn set_voxel(&mut self, x: usize, y: usize, z: usize, voxel: Option<u8>)
        requires
            old(self).wf(),
        ensures
            final(self).wf(),
            final(self).size == old(self).size,
            final(self).data@ == (if in_cube(old(self).size as int, x as int, y as int, z as int) {
                old(self).data@.update(
                    cell(old(self).size as int, x as int, y as int, z as int),
                    voxel,
                )
            } else {
                old(self).data@
            }),
    {
        if x < self.size && y < self.size && z < self.size {
            let index = self.index(x, y, z);
            self.data.set(index, voxel);
        }
    }

    /// Scales the content to a cube of side `new_size`: each new voxel takes
    /// the old voxel at its coordinates times `size / new_size`, rounded down.
    pub fn resize(&mut self, new_size: usize)
        requires
            old(self).wf(),
            cube(new_size as int) <= usize::MAX,
            new_size > 0 ==> (new_size - 1) * old(self).size <= usize::MAX,
            new_size > 0 ==> old(self).size > 0,
        ensures
            final(self).wf(),
            final(self).size == new_size,
            new_size == old(self).size ==> final(self).data@ == old(self).data@,
            forall|x: int, y: int, z: int|
                in_cube(new_size as int, x, y, z) ==> #[trigger] final(self).data@[cell(
                    new_size as int,
                    x,
                    y,
                    z,
                )] == sampled(old(self).data@, old(self).size as int, new_size as int, x, y, z),
    {
        let n = new_size;
        let s = self.size;
        let ghost old_data = self.data@;
        assert(n * n <= n * n * n || n == 0) by (nonlinear_arith);
        assert(n * n <= usize::MAX) by (nonlinear_arith)
            requires
                n * n * n <= usize::MAX,
        ;
        let total = n * n * n;
        let mut new_data: Vec<Option<u8>> = vec![None; total];
        let mut z: usize = 0;
        while z < n
            invariant
                self.wf(),
                self.size == s,
                self.data@ == old_data,
                new_data@.len() == cube(n as int),
                cube(n as int) <= usize::MAX,
                n > 0 ==> (n - 1) * s <= usize::MAX,
                n > 0 ==> s > 0,
                z <= n,
                forall|a: int, b: int, c: int|
                    in_cube(n as int, a, b, c) && c < z ==> #[trigger] new_data@[cell(
                        n as int,
                        a,
                        b,
                        c,
                    )] == sampled(old_data, s as int, n as int, a, b, c),
            decreases n - z,
        {
            let mut y: usize = 0;
            while y < n
                invariant
                    self.wf(),
                    self.size == s,
                    self.data@ == old_data,
                    new_data@.len() == cube(n as int),
                    cube(n as int) <= usize::MAX,
                    n > 0 ==> (n - 1) * s <= usize::MAX,
                    n > 0 ==> s > 0,
                    z < n,
                    y <= n,
                    forall|a: int, b: int, c: int|
                        in_cube(n as int, a, b, c) && (c < z || (c == z && b < y))
                            ==> #[trigger] new_data@[cell(n as int, a, b, c)] == sampled(
                            old_data,
                            s as int,
                            n as int,
                            a,
                            b,
                            c,
                        ),
                decreases n - y,
            {
                let mut x: usize = 0;
                while x < n
                    invariant
                        self.wf(),
                        self.size == s,
                        self.data@ == old_data,
                        new_data@.len() == cube(n as int),
                        cube(n as int) <= usize::MAX,
                        n > 0 ==> (n - 1) * s <= usize::MAX,
                        n > 0 ==> s > 0,
                        z < n,
                        y < n,
                        x <= n,
                        forall|a: int, b: int, c: int|
                            in_cube(n as int, a, b, c) && (c < z || (c == z && b < y) || (c == z
                                && b == y && a < x)) ==> #[trigger] new_data@[cell(
                                n as int,
                                a,
                                b,
                                c,
                            )] == sampled(old_data, s as int, n as int, a, b, c),
                    decreases n - x,
                {
                    proof {
                        assert(x * s <= (n - 1) * s && y * s <= (n - 1) * s && z * s <= (n - 1)
                            * s) by (nonlinear_arith)
                            requires
                                x < n,
                                y < n,
                                z < n,
                        ;
                        lemma_scaled(x as int, s as int, n as int);
                        lemma_scaled(y as int, s as int, n as int);
                        lemma_scaled(z as int, s as int, n as int);
                    }
                    let old_x = x * s / n;
                    let old_y = y * s / n;
                    let old_z = z * s / n;
                    let old_index = self.index(old_x, old_y, old_z);
                    proof {
                        lemma_cell(n as int, x as int, y as int, z as int, x as int, y as int, z as int);
                        assert(x + y * n + z * n * n == cell(n as int, x as int, y as int, z as int))
                            by (nonlinear_arith);
                        assert(0 <= y * n && 0 <= z * n * n && z * n <= n * n) by (nonlinear_arith)
                            requires
                                y < n,
                                z < n,
                        ;
                        assert(z * n * n <= n * n * n) by (nonlinear_arith)
                            requires
                                z < n,
                        ;
                        assert(n * n <= n * n * n) by (nonlinear_arith)
                            requires
                                n >= 1,
                        ;
                    }
                    let new_index = x + y * n + z * n * n;
                    let ghost before = new_data@;
                    new_data.set(new_index, self.data[old_index]);
                    proof {
                        assert forall|a: int, b: int, c: int|
                            in_cube(n as int, a, b, c) && (c < z || (c == z && b < y) || (c == z
                                && b == y && a < x + 1)) implies #[trigger] new_data@[cell(
                            n as int,
                            a,
                            b,
                            c,
                        )] == sampled(old_data, s as int, n as int, a, b, c) by {
                            lemma_cell(n as int, a, b, c, x as int, y as int, z as int);
                        }
                    }
                    x = x + 1;
                }
                y = y + 1;
            }
            z = z + 1;
        }
        proof {
            if n == s && s > 0 {
                assert forall|i: int| 0 <= i < cube(s as int) implies new_data@[i] == old_data[i] by {
                    lemma_index_cell(s as int, i);
                    let a = i % (s as int);
                    let b = (i / (s as int)) % (s as int);
                    let c = i / (s as int * s as int);
                    assert(new_data@[cell(n as int, a, b, c)] == sampled(old_data, s as int, n as int, a, b, c));
                    lemma_resize_same_size(old_data, s as int, a, b, c);
                }
                assert(new_data@ =~= old_data);
            } else if n == s {
                assert(cube(s as int) == 0) by (nonlinear_arith)
                    requires
                        s == 0,
                ;
                assert(new_data@ =~= old_data);
            }
        }
        self.size = new_size;
        self.data = new_data;
    }
}

} // verus!
