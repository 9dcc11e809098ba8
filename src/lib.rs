//! Locomotion and collision core of a voxel-world explorer: a first-person
//! camera that moves through a cube grid, vertical free-fall and jump
//! kinematics, the set of cube instances to draw, and the glyphs of the font
//! atlas.
//!
//! All quantities are fixed-point integers:
//! positions in femtometres, vertical speeds in nanometres per second,
//! elapsed times in microseconds, angles in microradians and unit directions
//! scaled by one million.

pub mod camera;
pub mod cubes;
pub mod cubes_to_draw;
pub mod font;
pub mod gravity;

pub use camera::{
    Camera, Heading, MotionState, Vec3, CHUNK_FLOOR, HALF_PI, LOOK_AHEAD, METRE, PI,
    PLAYER_HEIGHT, POS_LIMIT, SCALE, SPEED,
};
pub use cubes::{Block, Chunk, Cube, CubeInstance, CubePos};
pub use cubes_to_draw::CubesToDraw;
pub use font::{GLChar, N_COLS, N_ROWS};
pub use gravity::{GravityHandler, GRAVITY, JUMP_SPEED, TERMINAL_SPEED};
