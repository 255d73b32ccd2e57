use vstd::prelude::*;

use crate::calc::cells::BlockPos;

pub mod gen_simulator;
pub mod prismarine_simulator;

verus! {

/// Block-state properties that the movement rules read.
#[derive(Clone, Copy, Debug, PartialEq, Eq, Structural)]
pub struct BlockProps {
    pub waterlogged: bool,
}

impl Default for BlockProps {
    fn default() -> (r: Self)
        ensures
            !r.waterlogged,
    {
        BlockProps { waterlogged: false }
    }
}

/// What the movement rules read of a block: its id, metadata, the tag of its
/// bounding box (`"empty"`, `"block"`, ...) and its properties.
#[derive(Clone, Debug)]
pub struct BlockInfo {
    pub b_type: u32,
    pub metadata: u32,
    pub bounding_box: String,
    pub properties: BlockProps,
}

impl BlockInfo {
    /// Whether the bounding box tag is anything but `"empty"`.
    pub open spec fn spec_has_shape(&self) -> bool {
        self.bounding_box@ != "empty"@
    }

    pub fn has_shape(&self) -> (r: bool)
        ensures
            r == self.spec_has_shape(),
    {
        let empty = "empty".to_owned();
        !(self.bounding_box == empty)
    }
}

/// A block together with the voxel it was found at.
#[derive(Clone, Debug)]
pub struct PlacedBlock {
    pub pos: BlockPos,
    pub block: BlockInfo,
}

/// Read access to the voxel world. `spec_block` is what the world holds at a voxel,
/// `None` where nothing is loaded; `block_at` reports it. Outside verified code both are
/// ordinary methods: an implementation defines them as the same lookup.
pub trait BlockSource {
    spec fn spec_block(&self, p: BlockPos) -> Option<BlockInfo>;

    fn block_at(&self, p: BlockPos) -> (r: Option<BlockInfo>)
        ensures
            r == self.spec_block(p),
    ;
}

} // verus!
