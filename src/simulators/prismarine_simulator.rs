use vstd::prelude::*;

use std::collections::HashSet;

use crate::calc::cells::{cells_in, cells_of, lemma_cells_within, pos, BlockPos};
use crate::simulators::{BlockInfo, BlockSource, PlacedBlock};

verus! {

broadcast use vstd::std_specs::hash::group_hash_axioms;

/// The block ids that the movement rules single out.
pub struct BlockIds {
    pub slime_block_id: u32,
    pub soulsand_id: u32,
    pub web_id: u32,
    pub honeyblock_id: u32,
    pub bubblecolumn_id: u32,
    pub ladder_id: u32,
    pub vine_id: u32,
    pub water_id: u32,
    pub lava_id: u32,
    /// Blocks that count as full water (kelp, seagrass, bubble columns, ...).
    pub water_like: HashSet<u32>,
}

/// The current of one water block before normalisation: the horizontal sum of depth
/// differences toward its neighbours, and the number of blocked sides that bend a falling
/// current downward.
#[derive(Clone, Copy, Debug, PartialEq, Eq, Structural)]
pub struct FlowSum {
    pub x: i64,
    pub z: i64,
    pub edges: u8,
}

/// A block that slows horizontal movement through or on it.
#[derive(Clone, Copy, Debug, PartialEq, Eq, Structural)]
pub enum SpeedBlock {
    SoulSand,
    Honey,
}

/// The push of one bubble column voxel: downward (metadata 0) or upward, and whether
/// it is the surface voxel, with air right above it.
#[derive(Clone, Copy, Debug, PartialEq, Eq, Structural)]
pub struct BubblePush {
    pub down: bool,
    pub surface: bool,
}

/// What the blocks an entity stands in do to it, in scan order: the blocks that
/// slow it, whether it is caught in a web, and the bubble columns that push it.
#[derive(Clone, Debug)]
pub struct BlockEffects {
    pub slowdowns: Vec<SpeedBlock>,
    pub in_web: bool,
    pub bubbles: Vec<BubblePush>,
}

/// The collision flags that one collision-resolved move leaves on the entity.
#[derive(Clone, Copy, Debug, PartialEq, Eq, Structural)]
pub struct MoveFlags {
    pub sneak_collision: bool,
    pub is_collided_horizontally: bool,
    pub is_collided_vertically: bool,
    pub on_ground: bool,
}

impl MoveFlags {
    /// The flags after a move. `x_held` / `z_held`: the final displacement differs from
    /// the one asked for before sneaking trimmed it; `x_clipped` / `z_clipped` /
    /// `y_clipped`: it differs from the one that went into the collision sweep;
    /// `falling`: the asked vertical displacement was negative. The entity lands when it
    /// was stopped on its way down.
    pub fn after_move(x_held: bool, z_held: bool, x_clipped: bool, z_clipped: bool, y_clipped: bool, falling: bool) -> (r:
        Self)
        ensures
            r.sneak_collision == (x_held || z_held),
            r.is_collided_horizontally == (x_clipped || z_clipped),
            r.is_collided_vertically == y_clipped,
            r.on_ground == (y_clipped && falling),
            r.on_ground ==> r.is_collided_vertically,
    {
        MoveFlags {
            sneak_collision: x_held || z_held,
            is_collided_horizontally: x_clipped || z_clipped,
            is_collided_vertically: y_clipped,
            on_ground: y_clipped && falling,
        }
    }
}

/// Whether a lookup found a block of the given id.
pub open spec fn is_type(b: Option<BlockInfo>, b_type: u32) -> bool {
    b is Some && b->0.b_type == b_type
}

impl BlockIds {
    /// How far below the top of its voxel a liquid's surface stands, in ninths minus one:
    /// 0 for water-like and waterlogged blocks and for sources and falling water,
    /// the metadata for flowing water, -1 for anything that is not water.
    pub open spec fn spec_rendered_depth(&self, b: BlockInfo) -> int {
        if self.water_like@.contains(b.b_type) || b.properties.waterlogged {
            0
        } else if b.b_type != self.water_id {
            -1
        } else if b.metadata >= 8 {
            0
        } else {
            b.metadata as int
        }
    }

    pub fn get_rendered_depth(&self, b: &BlockInfo) -> (r: i64)
        ensures
            r == self.spec_rendered_depth(*b),
            -1 <= r < 8,
    {
        if self.water_like.contains(&b.b_type) {
            return 0;
        }
        if b.properties.waterlogged {
            return 0;
        }
        if b.b_type != self.water_id {
            return -1;
        }
        if b.metadata >= 8 {
            0
        } else {
            b.metadata as i64
        }
    }

    /// Water, a water-like block, or a waterlogged block.
    pub open spec fn spec_is_water(&self, b: BlockInfo) -> bool {
        b.b_type == self.water_id || self.water_like@.contains(b.b_type) || b.properties.waterlogged
    }

    /// Whether the water in voxel row `y` reaches the box whose top, rounded up, is `top`:
    /// `top >= y + 1 - (depth + 1) / 9`, multiplied out by 9.
    pub open spec fn spec_water_reaches(&self, b: BlockInfo, y: int, top: int) -> bool {
        9 * top >= 9 * (y + 1) - (self.spec_rendered_depth(b) + 1)
    }

    /// For water, how full its voxel is never decides: the surface reaches the box exactly
    /// when the box's top, rounded up, lies above the floor of the voxel.
    pub proof fn lemma_water_reaches_above_floor(&self, b: BlockInfo, y: int, top: int)
        requires
            self.spec_is_water(b),
        ensures
            self.spec_water_reaches(b, y, top) <==> top > y,
    {
        let d = self.spec_rendered_depth(b);
        assert(0 <= d <= 7);
        assert((9 * top >= 9 * (y + 1) - (d + 1)) <==> top > y) by (nonlinear_arith)
            requires
                0 <= d <= 7,
        ;
    }

    /// The water blocks among `cells`, in order, whose surface reaches up to `top`.
    pub open spec fn water_among<W: BlockSource>(
        &self,
        world: &W,
        cells: Seq<BlockPos>,
        top: int,
    ) -> Seq<PlacedBlock>
        decreases cells.len(),
    {
        if cells.len() == 0 {
            Seq::empty()
        } else {
            let before = self.water_among(world, cells.drop_last(), top);
            let p = cells.last();
            match world.spec_block(p) {
                Some(b) => if self.spec_is_water(b) && self.spec_water_reaches(b, p.y as int, top) {
                    before.push(PlacedBlock { pos: p, block: b })
                } else {
                    before
                },
                None => before,
            }
        }
    }
    /// Whether some voxel of the box spanned by `lo` and `hi` holds a block of id `b_type`.
    pub fn is_material_in_bb<W: BlockSource>(lo: BlockPos, hi: BlockPos, b_type: u32, world: &W) -> (r:
        bool)
        ensures
            r == exists|i: int|
                0 <= i < cells_of(lo, hi).len() && is_type(
                    world.spec_block(#[trigger] cells_of(lo, hi)[i]),
                    b_type,
                ),
    {
        let cells = cells_in(lo, hi);
        let mut i: usize = 0;
        while i < cells.len()
            invariant
                cells@ == cells_of(lo, hi),
                i <= cells.len(),
                forall|j: int| 0 <= j < i ==> !is_type(world.spec_block(#[trigger] cells@[j]), b_type),
            decreases cells.len() - i,
        {
            let found = world.block_at(cells[i]);
            match found {
                Some(b) => {
                    if b.b_type == b_type {
                        return true;
                    }
                },
                None => {},
            }
            i += 1;
        }
        false
    }

    /// The water blocks in the box spanned by `lo` and `hi`, extended one voxel downward,
    /// whose surface reaches the top of the query box, `top` being that top rounded up.
    pub fn get_water_in_bb<W: BlockSource>(&self, lo: BlockPos, hi: BlockPos, top: i64, world: &W) -> (r:
        Vec<PlacedBlock>)
        requires
            lo.y > i64::MIN,
        ensures
            r@ == self.water_among(world, cells_of(BlockPos { y: (lo.y - 1) as i64, ..lo }, hi), top as int),
    {
        let from = BlockPos { x: lo.x, y: lo.y - 1, z: lo.z };
        let cells = cells_in(from, hi);
        let mut r: Vec<PlacedBlock> = Vec::new();
        let mut i: usize = 0;
        while i < cells.len()
            invariant
                cells@ == cells_of(from, hi),
                i <= cells.len(),
                r@ == self.water_among(world, cells@.take(i as int), top as int),
            decreases cells.len() - i,
        {
            let p = cells[i];
            proof {
                assert(cells@.take(i + 1).drop_last() =~= cells@.take(i as int));
            }
            match world.block_at(p) {
                Some(b) => {
                    let is_water = b.b_type == self.water_id || self.water_like.contains(&b.b_type)
                        || b.properties.waterlogged;
                    if is_water {
                        let depth = self.get_rendered_depth(&b);
                        if 9 * (top as i128) >= 9 * (p.y as i128 + 1) - (depth as i128 + 1) {
                            r.push(PlacedBlock { pos: p, block: b });
                        }
                    }
                },
                None => {},
            }
            i += 1;
        }
        assert(cells@.take(cells@.len() as int) =~= cells@);
        r
    }
    /// What the neighbour at `(dx, 0, dz)` of the water block at `p`, whose depth is `cur`,
    /// adds to the flow along that direction: the difference of depths to a water
    /// neighbour; for a solid non-water neighbour, the difference to the water below it,
    /// taken as 8 deeper; nothing otherwise.
    pub open spec fn flow_term<W: BlockSource>(&self, world: &W, p: BlockPos, cur: int, dx: int, dz: int) -> int {
        match world.spec_block(pos(p.x + dx, p.y as int, p.z + dz)) {
            None => 0,
            Some(a) => if self.spec_rendered_depth(a) >= 0 {
                self.spec_rendered_depth(a) - cur
            } else if a.spec_has_shape() {
                match world.spec_block(pos(p.x + dx, p.y - 1, p.z + dz)) {
                    Some(l) => if self.spec_rendered_depth(l) >= 0 {
                        self.spec_rendered_depth(l) - (cur - 8)
                    } else {
                        0
                    },
                    None => 0,
                }
            } else {
                0
            },
        }
    }

    /// Whether the side `(dx, dz)` of the voxel at `p` is blocked, at its level or one above.
    pub open spec fn side_blocked<W: BlockSource>(world: &W, p: BlockPos, dx: int, dz: int) -> bool {
        (world.spec_block(pos(p.x + dx, p.y as int, p.z + dz)) matches Some(a) && a.spec_has_shape())
            || (world.spec_block(pos(p.x + dx, p.y + 1, p.z + dz)) matches Some(a)
            && a.spec_has_shape())
    }

    /// Flow contribution of one neighbour, see `flow_term`.
    fn flow_toward<W: BlockSource>(&self, world: &W, p: BlockPos, cur: i64, dx: i64, dz: i64) -> (r: i64)
        requires
            -1 <= cur < 8,
            -1 <= dx <= 1,
            -1 <= dz <= 1,
            i64::MIN < p.x < i64::MAX,
            i64::MIN < p.y,
            i64::MIN < p.z < i64::MAX,
        ensures
            r == self.flow_term(world, p, cur as int, dx as int, dz as int),
            -16 <= r <= 16,
    {
        match world.block_at(BlockPos { x: p.x + dx, y: p.y, z: p.z + dz }) {
            None => 0,
            Some(a) => {
                let adj = self.get_rendered_depth(&a);
                if adj >= 0 {
                    adj - cur
                } else if a.has_shape() {
                    match world.block_at(BlockPos { x: p.x + dx, y: p.y - 1, z: p.z + dz }) {
                        Some(l) => {
                            let below = self.get_rendered_depth(&l);
                            if below >= 0 {
                                below - (cur - 8)
                            } else {
                                0
                            }
                        },
                        None => 0,
                    }
                } else {
                    0
                }
            },
        }
    }

    /// Whether the side `(dx, dz)` of the voxel at `p` is blocked, see `side_blocked`.
    fn is_side_blocked<W: BlockSource>(world: &W, p: BlockPos, dx: i64, dz: i64) -> (r: bool)
        requires
            -1 <= dx <= 1,
            -1 <= dz <= 1,
            i64::MIN < p.x < i64::MAX,
            p.y < i64::MAX,
            i64::MIN < p.z < i64::MAX,
        ensures
            r == Self::side_blocked(world, p, dx as int, dz as int),
    {
        let level = world.block_at(BlockPos { x: p.x + dx, y: p.y, z: p.z + dz });
        let blocked = match level {
            Some(a) => a.has_shape(),
            None => false,
        };
        if blocked {
            return true;
        }
        match world.block_at(BlockPos { x: p.x + dx, y: p.y + 1, z: p.z + dz }) {
            Some(a) => a.has_shape(),
            None => false,
        }
    }

    /// The unnormalised current of the water block `w`. The horizontal part sums
    /// `direction * flow_term` over the four sides `(0, 1), (-1, 0), (0, -1), (1, 0)`;
    /// `edges` counts, for falling water (metadata at least 8), the sides that are
    /// blocked: each of them bends the current downward.
    pub fn get_flow<W: BlockSource>(&self, w: &PlacedBlock, world: &W) -> (r: FlowSum)
        requires
            i64::MIN < w.pos.x < i64::MAX,
            i64::MIN < w.pos.y < i64::MAX,
            i64::MIN < w.pos.z < i64::MAX,
        ensures
            ({
                let p = w.pos;
                let cur = self.spec_rendered_depth(w.block);
                &&& r.x == self.flow_term(world, p, cur, 1, 0) - self.flow_term(world, p, cur, -1, 0)
                &&& r.z == self.flow_term(world, p, cur, 0, 1) - self.flow_term(world, p, cur, 0, -1)
                &&& r.edges == if w.block.metadata >= 8 {
                    (if Self::side_blocked(world, p, 0, 1) { 1int } else { 0 })
                        + (if Self::side_blocked(world, p, -1, 0) { 1int } else { 0 })
                        + (if Self::side_blocked(world, p, 0, -1) { 1int } else { 0 })
                        + (if Self::side_blocked(world, p, 1, 0) { 1int } else { 0 })
                } else {
                    0
                }
            }),
    {
        let p = w.pos;
        let cur = self.get_rendered_depth(&w.block);
        let north = self.flow_toward(world, p, cur, 0, 1);
        let west = self.flow_toward(world, p, cur, -1, 0);
        let south = self.flow_toward(world, p, cur, 0, -1);
        let east = self.flow_toward(world, p, cur, 1, 0);
        let mut edges: u8 = 0;
        if w.block.metadata >= 8 {
            if Self::is_side_blocked(world, p, 0, 1) {
                edges += 1;
            }
            if Self::is_side_blocked(world, p, -1, 0) {
                edges += 1;
            }
            if Self::is_side_blocked(world, p, 0, -1) {
                edges += 1;
            }
            if Self::is_side_blocked(world, p, 1, 0) {
                edges += 1;
            }
        }
        FlowSum { x: east - west, z: north - south, edges }
    }
    /// The speed block that `b` is, when speed blocks apply; soul sand is tested first.
    pub open spec fn speed_block_of(&self, b: Option<BlockInfo>, apply: bool) -> Option<SpeedBlock> {
        if apply && is_type(b, self.soulsand_id) {
            Some(SpeedBlock::SoulSand)
        } else if apply && is_type(b, self.honeyblock_id) {
            Some(SpeedBlock::Honey)
        } else {
            None
        }
    }

    fn speed_block(&self, b: &Option<BlockInfo>, apply: bool) -> (r: Option<SpeedBlock>)
        ensures
            r == self.speed_block_of(*b, apply),
    {
        if !apply {
            return None;
        }
        match b {
            Some(b) => {
                if b.b_type == self.soulsand_id {
                    Some(SpeedBlock::SoulSand)
                } else if b.b_type == self.honeyblock_id {
                    Some(SpeedBlock::Honey)
                } else {
                    None
                }
            },
            None => None,
        }
    }

    /// The push of the voxel at `p`, when it holds a bubble column and no web.
    pub open spec fn bubble_at<W: BlockSource>(&self, world: &W, p: BlockPos) -> Option<BubblePush> {
        let b = world.spec_block(p);
        if !is_type(b, self.web_id) && is_type(b, self.bubblecolumn_id) {
            Some(
                BubblePush {
                    down: b->0.metadata == 0,
                    surface: is_type(world.spec_block(pos(p.x as int, p.y + 1, p.z as int)), 0),
                },
            )
        } else {
            None
        }
    }

    /// The speed blocks among `cells`, in order.
    pub open spec fn slowdowns_among<W: BlockSource>(&self, world: &W, cells: Seq<BlockPos>, apply: bool) -> Seq<
        SpeedBlock,
    >
        decreases cells.len(),
    {
        if cells.len() == 0 {
            Seq::empty()
        } else {
            let before = self.slowdowns_among(world, cells.drop_last(), apply);
            match self.speed_block_of(world.spec_block(cells.last()), apply) {
                Some(s) => before.push(s),
                None => before,
            }
        }
    }

    /// The bubble column pushes among `cells`, in order.
    pub open spec fn bubbles_among<W: BlockSource>(&self, world: &W, cells: Seq<BlockPos>) -> Seq<BubblePush>
        decreases cells.len(),
    {
        if cells.len() == 0 {
            Seq::empty()
        } else {
            let before = self.bubbles_among(world, cells.drop_last());
            match self.bubble_at(world, cells.last()) {
                Some(b) => before.push(b),
                None => before,
            }
        }
    }

    /// The effects of the blocks in the box spanned by `lo` and `hi`. Soul sand and honey
    /// slow the entity only when `apply_speed` holds (block effects apply to it and the
    /// version slows on collision); webs and bubble columns act on every entity.
    pub fn collision_effects<W: BlockSource>(&self, lo: BlockPos, hi: BlockPos, apply_speed: bool, world: &W) -> (r:
        BlockEffects)
        requires
            hi.y < i64::MAX,
        ensures
            r.slowdowns@ == self.slowdowns_among(world, cells_of(lo, hi), apply_speed),
            r.bubbles@ == self.bubbles_among(world, cells_of(lo, hi)),
            r.in_web == exists|i: int|
                0 <= i < cells_of(lo, hi).len() && is_type(
                    world.spec_block(#[trigger] cells_of(lo, hi)[i]),
                    self.web_id,
                ),
    {
        let cells = cells_in(lo, hi);
        let mut slowdowns: Vec<SpeedBlock> = Vec::new();
        let mut bubbles: Vec<BubblePush> = Vec::new();
        let mut in_web = false;
        let mut i: usize = 0;
        while i < cells.len()
            invariant
                cells@ == cells_of(lo, hi),
                hi.y < i64::MAX,
                i <= cells.len(),
                slowdowns@ == self.slowdowns_among(world, cells@.take(i as int), apply_speed),
                bubbles@ == self.bubbles_among(world, cells@.take(i as int)),
                in_web == exists|j: int|
                    0 <= j < i && is_type(world.spec_block(#[trigger] cells@[j]), self.web_id),
            decreases cells.len() - i,
        {
            let p = cells[i];
            proof {
                assert(cells@.take(i + 1).drop_last() =~= cells@.take(i as int));
                lemma_cells_within(lo, hi);
            }
            let found = world.block_at(p);
            match self.speed_block(&found, apply_speed) {
                Some(s) => slowdowns.push(s),
                None => {},
            }
            match found {
                Some(b) => {
                    if b.b_type == self.web_id {
                        in_web = true;
                    } else if b.b_type == self.bubblecolumn_id {
                        let above = world.block_at(BlockPos { x: p.x, y: p.y + 1, z: p.z });
                        let surface = match above {
                            Some(a) => a.b_type == 0,
                            None => false,
                        };
                        bubbles.push(BubblePush { down: b.metadata == 0, surface });
                    }
                },
                None => {},
            }
            i += 1;
        }
        assert(cells@.take(cells@.len() as int) =~= cells@);
        BlockEffects { slowdowns, in_web, bubbles }
    }

    /// The speed block one voxel under `feet` (the entity's floored position), when
    /// speed blocks apply.
    pub fn speed_block_on_top<W: BlockSource>(&self, feet: BlockPos, apply: bool, world: &W) -> (r: Option<
        SpeedBlock,
    >)
        requires
            feet.y > i64::MIN,
        ensures
            r == self.speed_block_of(world.spec_block(pos(feet.x as int, feet.y - 1, feet.z as int)), apply),
    {
        let below = world.block_at(BlockPos { x: feet.x, y: feet.y - 1, z: feet.z });
        self.speed_block(&below, apply)
    }

    /// Whether the voxel at `p` holds a ladder or a vine.
    pub fn is_on_ladder<W: BlockSource>(&self, p: BlockPos, world: &W) -> (r: bool)
        ensures
            r == (is_type(world.spec_block(p), self.ladder_id) || is_type(world.spec_block(p), self.vine_id)),
    {
        match world.block_at(p) {
            Some(b) => b.b_type == self.ladder_id || b.b_type == self.vine_id,
            None => false,
        }
    }

    /// Whether the voxel at `p` holds a block of id `b_type`.
    pub fn is_block_at<W: BlockSource>(p: BlockPos, b_type: u32, world: &W) -> (r: bool)
        ensures
            r == is_type(world.spec_block(p), b_type),
    {
        match world.block_at(p) {
            Some(b) => b.b_type == b_type,
            None => false,
        }
    }

    /// Whether a vertical collision bounces the entity back: it landed on slime, block
    /// effects apply to it, and it is not sneaking. Otherwise its vertical speed stops.
    pub fn bounces<W: BlockSource>(&self, feet: BlockPos, block_effects: bool, sneak: bool, world: &W) -> (r: bool)
        ensures
            r == (block_effects && is_type(world.spec_block(feet), self.slime_block_id) && !sneak),
    {
        block_effects && Self::is_block_at(feet, self.slime_block_id, world) && !sneak
    }
}

} // verus!
