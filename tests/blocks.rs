use std::collections::{HashMap, HashSet};

use minecraft_physics::calc::cells::BlockPos;
use minecraft_physics::simulators::prismarine_simulator::{
    BlockIds, BubblePush, FlowSum, MoveFlags, SpeedBlock,
};
use minecraft_physics::simulators::{BlockInfo, BlockProps, BlockSource, PlacedBlock};

const AIR: u32 = 0;
const STONE: u32 = 1;
const WATER: u32 = 9;
const LAVA: u32 = 10;
const SOUL_SAND: u32 = 20;
const HONEY: u32 = 21;
const WEB: u32 = 22;
const BUBBLES: u32 = 23;
const LADDER: u32 = 24;
const VINE: u32 = 25;
const SLIME: u32 = 26;
const KELP: u32 = 27;

struct MapWorld {
    blocks: HashMap<(i64, i64, i64), BlockInfo>,
}

impl MapWorld {
    fn new() -> Self {
        MapWorld { blocks: HashMap::new() }
    }

    fn set(&mut self, x: i64, y: i64, z: i64, b_type: u32, metadata: u32) {
        let bounding_box = if b_type == AIR || b_type == WATER { "empty" } else { "block" };
        self.blocks.insert(
            (x, y, z),
            BlockInfo {
                b_type,
                metadata,
                bounding_box: bounding_box.to_string(),
                properties: BlockProps::default(),
            },
        );
    }
}

impl BlockSource for MapWorld {
    fn spec_block(&self, p: BlockPos) -> Option<BlockInfo> {
        self.block_at(p)
    }

    fn block_at(&self, p: BlockPos) -> Option<BlockInfo> {
        self.blocks.get(&(p.x, p.y, p.z)).cloned()
    }
}

fn ids() -> BlockIds {
    let mut water_like = HashSet::new();
    water_like.insert(KELP);
    BlockIds {
        slime_block_id: SLIME,
        soulsand_id: SOUL_SAND,
        web_id: WEB,
        honeyblock_id: HONEY,
        bubblecolumn_id: BUBBLES,
        ladder_id: LADDER,
        vine_id: VINE,
        water_id: WATER,
        lava_id: LAVA,
        water_like,
    }
}

fn info(b_type: u32, metadata: u32, waterlogged: bool) -> BlockInfo {
    BlockInfo {
        b_type,
        metadata,
        bounding_box: "block".to_string(),
        properties: BlockProps { waterlogged },
    }
}

fn p(x: i64, y: i64, z: i64) -> BlockPos {
    BlockPos { x, y, z }
}

#[test]
fn rendered_depth_by_kind() {
    let ids = ids();
    assert_eq!(ids.get_rendered_depth(&info(WATER, 3, false)), 3);
    assert_eq!(ids.get_rendered_depth(&info(WATER, 0, false)), 0);
    assert_eq!(ids.get_rendered_depth(&info(WATER, 7, false)), 7);
    assert_eq!(ids.get_rendered_depth(&info(WATER, 8, false)), 0);
    assert_eq!(ids.get_rendered_depth(&info(WATER, 12, false)), 0);
    assert_eq!(ids.get_rendered_depth(&info(KELP, 5, false)), 0);
    assert_eq!(ids.get_rendered_depth(&info(STONE, 5, true)), 0);
    assert_eq!(ids.get_rendered_depth(&info(STONE, 5, false)), -1);
}

#[test]
fn shape_tag() {
    let mut b = info(STONE, 0, false);
    assert!(b.has_shape());
    b.bounding_box = "empty".to_string();
    assert!(!b.has_shape());
}

#[test]
fn material_scan_finds_lava() {
    let ids = ids();
    let mut world = MapWorld::new();
    world.set(2, 3, 4, LAVA, 0);
    assert!(BlockIds::is_material_in_bb(p(1, 3, 4), p(2, 3, 4), ids.lava_id, &world));
    assert!(!BlockIds::is_material_in_bb(p(0, 3, 4), p(1, 3, 4), ids.lava_id, &world));
    assert!(!BlockIds::is_material_in_bb(p(0, 0, 0), p(5, 5, 5), STONE, &world));
}

#[test]
fn water_scan_checks_surface_height() {
    let ids = ids();
    let mut world = MapWorld::new();
    world.set(0, 4, 0, WATER, 0);
    world.set(1, 4, 0, STONE, 0);
    world.set(0, 5, 0, WATER, 3);
    let found = ids.get_water_in_bb(p(0, 5, 0), p(1, 5, 0), 6, &world);
    let at: Vec<BlockPos> = found.iter().map(|w| w.pos).collect();
    assert_eq!(at, vec![p(0, 4, 0), p(0, 5, 0)]);
    assert_eq!(found[1].block.metadata, 3);
    let low = ids.get_water_in_bb(p(0, 5, 0), p(1, 5, 0), 5, &world);
    let at: Vec<BlockPos> = low.iter().map(|w| w.pos).collect();
    assert_eq!(at, vec![p(0, 4, 0)]);
}

#[test]
fn flow_sums_depth_differences() {
    let ids = ids();
    let mut world = MapWorld::new();
    world.set(0, 0, 0, WATER, 0);
    world.set(1, 0, 0, WATER, 3);
    world.set(-1, 0, 0, STONE, 0);
    world.set(-1, -1, 0, WATER, 2);
    world.set(0, 0, 1, AIR, 0);
    let source = PlacedBlock { pos: p(0, 0, 0), block: world.block_at(p(0, 0, 0)).unwrap() };
    let flow = ids.get_flow(&source, &world);
    assert_eq!(flow, FlowSum { x: 3 - 10, z: 0, edges: 0 });
}

#[test]
fn falling_water_counts_blocked_sides() {
    let ids = ids();
    let mut world = MapWorld::new();
    world.set(0, 0, 0, WATER, 8);
    world.set(0, 0, 1, WATER, 2);
    world.set(1, 0, 0, STONE, 0);
    world.set(-1, 1, 0, STONE, 0);
    world.set(0, 0, -1, AIR, 0);
    let falling = PlacedBlock { pos: p(0, 0, 0), block: world.block_at(p(0, 0, 0)).unwrap() };
    let flow = ids.get_flow(&falling, &world);
    assert_eq!(flow, FlowSum { x: 0, z: 2, edges: 2 });
}

#[test]
fn collision_effects_in_scan_order() {
    let ids = ids();
    let mut world = MapWorld::new();
    world.set(0, 0, 0, SOUL_SAND, 0);
    world.set(1, 0, 0, HONEY, 0);
    world.set(0, 1, 0, BUBBLES, 0);
    world.set(0, 2, 0, AIR, 0);
    world.set(1, 1, 0, BUBBLES, 1);
    world.set(1, 2, 0, WEB, 0);
    let e = ids.collision_effects(p(0, 0, 0), p(1, 2, 0), true, &world);
    assert_eq!(e.slowdowns, vec![SpeedBlock::SoulSand, SpeedBlock::Honey]);
    assert_eq!(
        e.bubbles,
        vec![BubblePush { down: true, surface: true }, BubblePush { down: false, surface: false }]
    );
    assert!(e.in_web);
    let off = ids.collision_effects(p(0, 0, 0), p(1, 1, 0), false, &world);
    assert!(off.slowdowns.is_empty());
    assert!(!off.in_web);
    assert_eq!(off.bubbles.len(), 2);
}

#[test]
fn speed_block_under_feet() {
    let ids = ids();
    let mut world = MapWorld::new();
    world.set(3, 63, 3, HONEY, 0);
    assert_eq!(ids.speed_block_on_top(p(3, 64, 3), true, &world), Some(SpeedBlock::Honey));
    assert_eq!(ids.speed_block_on_top(p(3, 64, 3), false, &world), None);
    assert_eq!(ids.speed_block_on_top(p(3, 65, 3), true, &world), None);
}

#[test]
fn ladders_and_vines_climb() {
    let ids = ids();
    let mut world = MapWorld::new();
    world.set(0, 0, 0, LADDER, 0);
    world.set(1, 0, 0, VINE, 0);
    world.set(2, 0, 0, STONE, 0);
    assert!(ids.is_on_ladder(p(0, 0, 0), &world));
    assert!(ids.is_on_ladder(p(1, 0, 0), &world));
    assert!(!ids.is_on_ladder(p(2, 0, 0), &world));
    assert!(!ids.is_on_ladder(p(3, 0, 0), &world));
    assert!(BlockIds::is_block_at(p(2, 0, 0), STONE, &world));
}

#[test]
fn slime_bounces_unless_sneaking() {
    let ids = ids();
    let mut world = MapWorld::new();
    world.set(0, 60, 0, SLIME, 0);
    world.set(1, 60, 0, STONE, 0);
    assert!(ids.bounces(p(0, 60, 0), true, false, &world));
    assert!(!ids.bounces(p(0, 60, 0), true, true, &world));
    assert!(!ids.bounces(p(0, 60, 0), false, false, &world));
    assert!(!ids.bounces(p(1, 60, 0), true, false, &world));
}

#[test]
fn landing_sets_ground_flag() {
    let f = MoveFlags::after_move(false, false, false, false, true, true);
    assert!(f.is_collided_vertically && f.on_ground);
    assert!(!f.is_collided_horizontally && !f.sneak_collision);
    let ceiling = MoveFlags::after_move(false, false, false, false, true, false);
    assert!(ceiling.is_collided_vertically && !ceiling.on_ground);
    let free = MoveFlags::after_move(false, false, false, false, false, true);
    assert!(!free.is_collided_vertically && !free.on_ground);
    let ledge = MoveFlags::after_move(true, false, false, true, false, false);
    assert!(ledge.sneak_collision && ledge.is_collided_horizontally);
}
