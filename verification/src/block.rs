//! Block identifiers, face directions, and the block registry's query surface.

use vstd::prelude::*;

verus! {

/// Identifier of a voxel type.  `BlockId::default()` denotes empty air.
#[derive(Clone, Copy, PartialEq, Eq, Structural, Hash, Debug)]
pub struct BlockId(pub u16);

impl Default for BlockId {
    /// The identifier of empty air.
    fn default() -> (r: Self)
        ensures
            r == BlockId(0u16),
    {
        BlockId(0)
    }
}

/// One of the six axis-aligned face directions of a cell.
#[derive(Clone, Copy, PartialEq, Eq, Structural, Hash, Debug)]
pub enum Side {
    Top,
    Bottom,
    Right,
    Left,
    Front,
    Back,
}

impl Side {
    /// True for the sides whose outward normal points toward positive
    /// coordinates (`Top` is +y, `Right` is +x, `Front` is +z).
    pub open spec fn spec_facing_positive(self) -> bool {
        match self {
            Side::Top => true,
            Side::Bottom => false,
            Side::Right => true,
            Side::Left => false,
            Side::Front => true,
            Side::Back => false,
        }
    }

    pub fn facing_positive(self) -> (r: bool)
        ensures
            r == self.spec_facing_positive(),
    {
        match self {
            Side::Top => true,
            Side::Bottom => false,
            Side::Right => true,
            Side::Left => false,
            Side::Front => true,
            Side::Back => false,
        }
    }

    /// The side's outward unit normal, by component.
    pub open spec fn spec_normal(self) -> (int, int, int) {
        match self {
            Side::Top => (0int, 1int, 0int),
            Side::Bottom => (0int, -1int, 0int),
            Side::Right => (1int, 0int, 0int),
            Side::Left => (-1int, 0int, 0int),
            Side::Front => (0int, 0int, 1int),
            Side::Back => (0int, 0int, -1int),
        }
    }

    pub fn normal(self) -> (r: (i32, i32, i32))
        ensures
            r.0 as int == self.spec_normal().0,
            r.1 as int == self.spec_normal().1,
            r.2 as int == self.spec_normal().2,
    {
        match self {
            Side::Top => (0i32, 1i32, 0i32),
            Side::Bottom => (0i32, -1i32, 0i32),
            Side::Right => (1i32, 0i32, 0i32),
            Side::Left => (-1i32, 0i32, 0i32),
            Side::Front => (0i32, 0i32, 1i32),
            Side::Back => (0i32, 0i32, -1i32),
        }
    }
}

/// Registry entry for one block type: its render flags and the texture-atlas
/// index for each of the six sides (`None` marks a missing, misconfigured
/// texture).
#[derive(Clone, Copy, Debug)]
pub struct BlockInfo {
    pub opaque: bool,
    pub liquid: bool,
    pub tex_top: Option<u16>,
    pub tex_bottom: Option<u16>,
    pub tex_right: Option<u16>,
    pub tex_left: Option<u16>,
    pub tex_front: Option<u16>,
    pub tex_back: Option<u16>,
}

impl BlockInfo {
    /// The registered texture for one side of this block type.
    pub open spec fn spec_texture(self, side: Side) -> Option<u16> {
        match side {
            Side::Top => self.tex_top,
            Side::Bottom => self.tex_bottom,
            Side::Right => self.tex_right,
            Side::Left => self.tex_left,
            Side::Front => self.tex_front,
            Side::Back => self.tex_back,
        }
    }
}

/// The block-type registry's read-only query surface: per-id opacity and
/// liquid flags, and the per-side texture lookup.  An id with no entry
/// behaves as empty air: not opaque, not liquid, no texture.
#[derive(Clone, Debug)]
pub struct BlockRegistry {
    pub infos: Vec<BlockInfo>,
}

impl BlockRegistry {
    pub open spec fn spec_opaque(&self, id: BlockId) -> bool {
        id.0 < self.infos@.len() && self.infos@[id.0 as int].opaque
    }

    pub open spec fn spec_liquid(&self, id: BlockId) -> bool {
        id.0 < self.infos@.len() && self.infos@[id.0 as int].liquid
    }

    pub open spec fn spec_texture(&self, id: BlockId, side: Side) -> Option<u16> {
        if id.0 < self.infos@.len() {
            self.infos@[id.0 as int].spec_texture(side)
        } else {
            None
        }
    }

    /// Whether the block type fully occludes the faces behind it.
    pub fn opaque(&self, id: BlockId) -> (r: bool)
        ensures
            r == self.spec_opaque(id),
    {
        let i: usize = id.0 as usize;
        i < self.infos.len() && self.infos[i].opaque
    }

    /// Whether the block type is rendered as a translucent liquid surface.
    pub fn liquid(&self, id: BlockId) -> (r: bool)
        ensures
            r == self.spec_liquid(id),
    {
        let i: usize = id.0 as usize;
        i < self.infos.len() && self.infos[i].liquid
    }

    /// The texture-atlas index registered for one side of a block type, or
    /// `None` when the registry has no entry for it.
    pub fn block_texture(&self, id: BlockId, side: Side) -> (r: Option<u16>)
        ensures
            r == self.spec_texture(id, side),
    {
        let i: usize = id.0 as usize;
        if i < self.infos.len() {
            let info = self.infos[i];
            match side {
                Side::Top => info.tex_top,
                Side::Bottom => info.tex_bottom,
                Side::Right => info.tex_right,
                Side::Left => info.tex_left,
                Side::Front => info.tex_front,
                Side::Back => info.tex_back,
            }
        } else {
            None
        }
    }
}

} // verus!
