use vstd::prelude::*;

verus! {

/// Integer coordinates of one voxel of the world.
#[derive(Clone, Copy, Debug, PartialEq, Eq, Structural)]
pub struct BlockPos {
    pub x: i64,
    pub y: i64,
    pub z: i64,
}

/// The voxel at `(x, y, z)`.
pub open spec fn pos(x: int, y: int, z: int) -> BlockPos {
    BlockPos { x: x as i64, y: y as i64, z: z as i64 }
}

/// The voxels `(x0..=x1, y, z)`, by increasing `x`.
pub open spec fn row(y: int, z: int, x0: int, x1: int) -> Seq<BlockPos> {
    Seq::new(if x1 >= x0 { (x1 - x0 + 1) as nat } else { 0 }, |i: int| pos(x0 + i, y, z))
}

/// The rows `z0..=z1` of the plane at height `y`, by increasing `z`.
pub open spec fn layer(y: int, z0: int, z1: int, x0: int, x1: int) -> Seq<BlockPos>
    decreases z1 + 1 - z0,
{
    if z1 < z0 {
        Seq::empty()
    } else {
        layer(y, z0, z1 - 1, x0, x1) + row(y, z1, x0, x1)
    }
}

/// The layers `y0..=y1`, by increasing `y`: `y` outermost, then `z`, then `x`.
pub open spec fn volume(y0: int, y1: int, z0: int, z1: int, x0: int, x1: int) -> Seq<BlockPos>
    decreases y1 + 1 - y0,
{
    if y1 < y0 {
        Seq::empty()
    } else {
        volume(y0, y1 - 1, z0, z1, x0, x1) + layer(y1, z0, z1, x0, x1)
    }
}

/// The voxels of the box spanned by `lo` and `hi`, in scan order.
pub open spec fn cells_of(lo: BlockPos, hi: BlockPos) -> Seq<BlockPos> {
    volume(lo.y as int, hi.y as int, lo.z as int, hi.z as int, lo.x as int, hi.x as int)
}

/// Every voxel of a plane lies at its height, between its bounds.
proof fn lemma_layer_within(y: int, z0: int, z1: int, x0: int, x1: int)
    requires
        i64::MIN <= y <= i64::MAX,
        i64::MIN <= z0,
        z1 <= i64::MAX,
        i64::MIN <= x0,
        x1 <= i64::MAX,
    ensures
        forall|i: int|
            0 <= i < layer(y, z0, z1, x0, x1).len() ==> {
                let c = #[trigger] layer(y, z0, z1, x0, x1)[i];
                &&& c.y == y
                &&& z0 <= c.z <= z1
                &&& x0 <= c.x <= x1
            },
    decreases z1 + 1 - z0,
{
    if z1 >= z0 {
        lemma_layer_within(y, z0, z1 - 1, x0, x1);
        let before = layer(y, z0, z1 - 1, x0, x1);
        let r = row(y, z1, x0, x1);
        assert forall|i: int| 0 <= i < layer(y, z0, z1, x0, x1).len() implies {
            let c = #[trigger] layer(y, z0, z1, x0, x1)[i];
            &&& c.y == y
            &&& z0 <= c.z <= z1
            &&& x0 <= c.x <= x1
        } by {
            if i >= before.len() {
                assert(layer(y, z0, z1, x0, x1)[i] == r[i - before.len()]);
            } else {
                assert(layer(y, z0, z1, x0, x1)[i] == before[i]);
            }
        }
    }
}

/// Every voxel of a box lies between its bounds.
proof fn lemma_volume_within(y0: int, y1: int, z0: int, z1: int, x0: int, x1: int)
    requires
        i64::MIN <= y0,
        y1 <= i64::MAX,
        i64::MIN <= z0,
        z1 <= i64::MAX,
        i64::MIN <= x0,
        x1 <= i64::MAX,
    ensures
        forall|i: int|
            0 <= i < volume(y0, y1, z0, z1, x0, x1).len() ==> {
                let c = #[trigger] volume(y0, y1, z0, z1, x0, x1)[i];
                &&& y0 <= c.y <= y1
                &&& z0 <= c.z <= z1
                &&& x0 <= c.x <= x1
            },
    decreases y1 + 1 - y0,
{
    if y1 >= y0 {
        lemma_volume_within(y0, y1 - 1, z0, z1, x0, x1);
        lemma_layer_within(y1, z0, z1, x0, x1);
        let before = volume(y0, y1 - 1, z0, z1, x0, x1);
        let l = layer(y1, z0, z1, x0, x1);
        assert forall|i: int| 0 <= i < volume(y0, y1, z0, z1, x0, x1).len() implies {
            let c = #[trigger] volume(y0, y1, z0, z1, x0, x1)[i];
            &&& y0 <= c.y <= y1
            &&& z0 <= c.z <= z1
            &&& x0 <= c.x <= x1
        } by {
            if i >= before.len() {
                assert(volume(y0, y1, z0, z1, x0, x1)[i] == l[i - before.len()]);
            } else {
                assert(volume(y0, y1, z0, z1, x0, x1)[i] == before[i]);
            }
        }
    }
}

/// Every voxel that `cells_of` lists lies in the box spanned by `lo` and `hi`.
pub proof fn lemma_cells_within(lo: BlockPos, hi: BlockPos)
    ensures
        forall|i: int|
            0 <= i < cells_of(lo, hi).len() ==> {
                let c = #[trigger] cells_of(lo, hi)[i];
                &&& lo.x <= c.x <= hi.x
                &&& lo.y <= c.y <= hi.y
                &&& lo.z <= c.z <= hi.z
            },
{
    lemma_volume_within(lo.y as int, hi.y as int, lo.z as int, hi.z as int, lo.x as int, hi.x as int);
}

proof fn lemma_layer_contains(y: int, z0: int, z1: int, x0: int, x1: int, x: int, z: int)
    requires
        z0 <= z <= z1,
        x0 <= x <= x1,
    ensures
        layer(y, z0, z1, x0, x1).contains(pos(x, y, z)),
    decreases z1 + 1 - z0,
{
    let before = layer(y, z0, z1 - 1, x0, x1);
    let all = layer(y, z0, z1, x0, x1);
    if z == z1 {
        assert(all[before.len() + (x - x0)] == pos(x, y, z));
    } else {
        lemma_layer_contains(y, z0, z1 - 1, x0, x1, x, z);
        let i = choose|i: int| 0 <= i < before.len() && before[i] == pos(x, y, z);
        assert(all[i] == pos(x, y, z));
    }
}

proof fn lemma_volume_contains(y0: int, y1: int, z0: int, z1: int, x0: int, x1: int, x: int, y: int, z: int)
    requires
        y0 <= y <= y1,
        z0 <= z <= z1,
        x0 <= x <= x1,
    ensures
        volume(y0, y1, z0, z1, x0, x1).contains(pos(x, y, z)),
    decreases y1 + 1 - y0,
{
    let before = volume(y0, y1 - 1, z0, z1, x0, x1);
    let all = volume(y0, y1, z0, z1, x0, x1);
    if y == y1 {
        lemma_layer_contains(y, z0, z1, x0, x1, x, z);
        let l = layer(y1, z0, z1, x0, x1);
        let i = choose|i: int| 0 <= i < l.len() && l[i] == pos(x, y, z);
        assert(all[before.len() + i] == pos(x, y, z));
    } else {
        lemma_volume_contains(y0, y1 - 1, z0, z1, x0, x1, x, y, z);
        let i = choose|i: int| 0 <= i < before.len() && before[i] == pos(x, y, z);
        assert(all[i] == pos(x, y, z));
    }
}

/// The scan misses no voxel: every voxel of the box spanned by `lo` and `hi` is listed.
/// With `lemma_cells_within`, the voxels listed are exactly those of the box.
pub proof fn lemma_cells_cover(lo: BlockPos, hi: BlockPos, c: BlockPos)
    requires
        lo.x <= c.x <= hi.x,
        lo.y <= c.y <= hi.y,
        lo.z <= c.z <= hi.z,
    ensures
        cells_of(lo, hi).contains(c),
{
    lemma_volume_contains(
        lo.y as int,
        hi.y as int,
        lo.z as int,
        hi.z as int,
        lo.x as int,
        hi.x as int,
        c.x as int,
        c.y as int,
        c.z as int,
    );
    assert(pos(c.x as int, c.y as int, c.z as int) == c);
}

/// Every voxel of the box spanned by `lo` and `hi` (both included), `y` outermost,
/// then `z`, then `x`. Each inner coordinate starts over at its minimum for every step
/// of the coordinate outside it. Empty when `lo` exceeds `hi` on some axis.
pub fn cells_in(lo: BlockPos, hi: BlockPos) -> (r: Vec<BlockPos>)
    ensures
        r@ == cells_of(lo, hi),
{
    let ghost x0 = lo.x as int;
    let ghost x1 = hi.x as int;
    let ghost z0 = lo.z as int;
    let ghost z1 = hi.z as int;
    let ghost y0 = lo.y as int;
    let mut r: Vec<BlockPos> = Vec::new();
    let mut y: i128 = lo.y as i128;
    while y <= hi.y as i128
        invariant
            x0 == lo.x,
            x1 == hi.x,
            z0 == lo.z,
            z1 == hi.z,
            y0 == lo.y,
            y0 <= y,
            y <= hi.y + 1 || y == y0,
            r@ == volume(y0, y - 1, z0, z1, x0, x1),
        decreases hi.y + 1 - y,
    {
        let mut z: i128 = lo.z as i128;
        while z <= hi.z as i128
            invariant
                x0 == lo.x,
                x1 == hi.x,
                z0 == lo.z,
                z1 == hi.z,
                y0 == lo.y,
                y0 <= y <= hi.y,
                z0 <= z,
                z <= z1 + 1 || z == z0,
                r@ == volume(y0, y - 1, z0, z1, x0, x1) + layer(y as int, z0, z - 1, x0, x1),
            decreases hi.z + 1 - z,
        {
            let mut x: i128 = lo.x as i128;
            while x <= hi.x as i128
                invariant
                    x0 == lo.x,
                    x1 == hi.x,
                    z0 == lo.z,
                    z1 == hi.z,
                    y0 == lo.y,
                    y0 <= y <= hi.y,
                    z0 <= z <= z1,
                    x0 <= x,
                    x <= x1 + 1 || x == x0,
                    r@ == volume(y0, y - 1, z0, z1, x0, x1) + layer(y as int, z0, z - 1, x0, x1)
                        + row(y as int, z as int, x0, x - 1),
                decreases hi.x + 1 - x,
            {
                let ghost before = r@;
                r.push(BlockPos { x: x as i64, y: y as i64, z: z as i64 });
                assert(row(y as int, z as int, x0, x as int) =~= row(
                    y as int,
                    z as int,
                    x0,
                    x - 1,
                ).push(pos(x as int, y as int, z as int)));
                assert(r@ =~= volume(y0, y - 1, z0, z1, x0, x1) + layer(y as int, z0, z - 1, x0, x1)
                    + row(y as int, z as int, x0, x as int));
                x = x + 1;
            }
            assert(row(y as int, z as int, x0, x - 1) =~= row(y as int, z as int, x0, x1));
            assert(layer(y as int, z0, z as int, x0, x1) == layer(y as int, z0, z - 1, x0, x1)
                + row(y as int, z as int, x0, x1));
            assert(r@ =~= volume(y0, y - 1, z0, z1, x0, x1) + layer(y as int, z0, z as int, x0, x1));
            z = z + 1;
        }
        assert(layer(y as int, z0, z - 1, x0, x1) == layer(y as int, z0, z1, x0, x1)) by {
            if z == z0 {
                assert(layer(y as int, z0, z0 - 1, x0, x1) == Seq::<BlockPos>::empty());
                assert(layer(y as int, z0, z1, x0, x1) == Seq::<BlockPos>::empty());
            }
        }
        assert(volume(y0, y as int, z0, z1, x0, x1) == volume(y0, y - 1, z0, z1, x0, x1) + layer(
            y as int,
            z0,
            z1,
            x0,
            x1,
        ));
        y = y + 1;
    }
    assert(volume(y0, y - 1, z0, z1, x0, x1) == volume(y0, hi.y as int, z0, z1, x0, x1)) by {
        if y == y0 {
            assert(volume(y0, y0 - 1, z0, z1, x0, x1) == Seq::<BlockPos>::empty());
            assert(volume(y0, hi.y as int, z0, z1, x0, x1) == Seq::<BlockPos>::empty());
        }
    }
    r
}

/// The voxels that collision queries look at for a box spanned by `lo` and `hi`: the box
/// itself and the layer right under it, so that fences and walls below count too.
pub fn surrounding_cells(lo: BlockPos, hi: BlockPos) -> (r: Vec<BlockPos>)
    requires
        lo.y > i64::MIN,
    ensures
        r@ == cells_of(BlockPos { y: (lo.y - 1) as i64, ..lo }, hi),
{
    cells_in(BlockPos { x: lo.x, y: lo.y - 1, z: lo.z }, hi)
}

/// The voxels of the layer right under the box spanned by `lo` and `hi`.
pub fn underlying_cells(lo: BlockPos, hi: BlockPos) -> (r: Vec<BlockPos>)
    requires
        lo.y > i64::MIN,
    ensures
        r@ == cells_of(BlockPos { y: (lo.y - 1) as i64, ..lo }, BlockPos { y: (lo.y - 1) as i64, ..hi }),
{
    cells_in(BlockPos { x: lo.x, y: lo.y - 1, z: lo.z }, BlockPos { x: hi.x, y: lo.y - 1, z: hi.z })
}

} // verus!
