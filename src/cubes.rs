use vstd::prelude::*;

verus! {

/// Integer coordinates of a cell of the cube grid.
#[derive(Clone, Copy, Debug, PartialEq, Eq, Structural)]
pub struct CubePos {
    pub x: i64,
    pub y: i64,
    pub z: i64,
}

impl CubePos {
    pub fn new(x: i64, y: i64, z: i64) -> (r: CubePos)
        ensures
            r == (CubePos { x, y, z }),
    {
        CubePos { x, y, z }
    }
}

/// The material of a cube.
#[derive(Clone, Copy, Debug, PartialEq, Eq, Structural)]
pub enum Block {
    GRASS,
    DIRT,
    STONE,
}

/// A solid cube of the world: its cell, its material and which of the
/// material's textures it shows.
#[derive(Clone, Copy, Debug, PartialEq, Eq, Structural)]
pub struct Cube {
    pub position: CubePos,
    pub block: Block,
    pub variant: u8,
}

impl Cube {
    pub fn new(position: CubePos, block: Block, variant: u8) -> (r: Cube)
        ensures
            r == (Cube { position, block, variant }),
    {
        Cube { position, block, variant }
    }
}

/// What the renderer draws of one cube.
#[derive(Clone, Copy, Debug, PartialEq, Eq, Structural)]
pub struct CubeInstance {
    pub position: CubePos,
    pub block: Block,
    pub variant: u8,
    pub is_selected: bool,
}

/// The instance drawn for a cube: not selected.
pub open spec fn instance_of(c: Cube) -> CubeInstance {
    CubeInstance { position: c.position, block: c.block, variant: c.variant, is_selected: false }
}

impl CubeInstance {
    pub fn new(c: &Cube) -> (r: CubeInstance)
        ensures
            r == instance_of(*c),
    {
        CubeInstance {
            position: c.position,
            block: c.block,
            variant: c.variant,
            is_selected: false,
        }
    }

    pub fn position(&self) -> (r: CubePos)
        ensures
            r == self.position,
    {
        self.position
    }
}

/// A block of the world: layers of rows of cells, each empty or holding a
/// cube.
pub struct Chunk {
    pub cubes: Vec<Vec<Vec<Option<Cube>>>>,
}

impl Chunk {
    pub fn new(cubes: Vec<Vec<Vec<Option<Cube>>>>) -> (r: Chunk)
        ensures
            r.cubes@ == cubes@,
    {
        Chunk { cubes }
    }

    pub fn cubes(&self) -> (r: &Vec<Vec<Vec<Option<Cube>>>>)
        ensures
            r@ == self.cubes@,
    {
        &self.cubes
    }
}

} // verus!
