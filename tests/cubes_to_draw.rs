use voxel_explorer::{Block, Chunk, Cube, CubePos, CubesToDraw, Vec3};

#[test]
fn test_add_remove_one_cube() {
    let mut cube_to_draw = CubesToDraw::new();
    let mut vec_to_draw = Vec::new();
    vec_to_draw.push(Cube::new(CubePos::new(0, 0, 0), Block::DIRT, 0));

    cube_to_draw.add_cube(&Cube::new(CubePos::new(0, 0, 0), Block::DIRT, 0));

    assert!(cube_to_draw.cubes_to_draw().len() == 1);

    cube_to_draw.remove_cube(&CubePos::new(1, 0, 0));
    assert!(cube_to_draw.cubes_to_draw().len() == 1);

    cube_to_draw.remove_cube(&CubePos::new(0, 0, 0));
    assert!(cube_to_draw.cubes_to_draw().len() == 0);
}

#[test]
fn remove_moves_last_instance_into_place() {
    let mut set = CubesToDraw::new();
    for x in 0..3 {
        set.add_cube(&Cube::new(CubePos::new(x, 0, 0), Block::STONE, 1));
    }
    set.remove_cube(&CubePos::new(0, 0, 0));
    let xs: Vec<i64> = set.cubes_to_draw().iter().map(|c| c.position().x).collect();
    assert_eq!(xs, vec![2, 1]);
    assert_eq!(set.number_cubes_rendered(), 2);
}

#[test]
fn remove_takes_only_the_first_match() {
    let mut set = CubesToDraw::new();
    set.add_cube(&Cube::new(CubePos::new(5, 5, 5), Block::DIRT, 0));
    set.add_cube(&Cube::new(CubePos::new(5, 5, 5), Block::GRASS, 0));
    set.remove_cube(&CubePos::new(5, 5, 5));
    assert_eq!(set.number_cubes_rendered(), 1);
    assert_eq!(set.cubes_to_draw()[0].block, Block::GRASS);
}

#[test]
fn remove_from_empty_set_does_nothing() {
    let mut set = CubesToDraw::new();
    set.remove_cube(&CubePos::new(0, 0, 0));
    assert_eq!(set.number_cubes_rendered(), 0);
}

#[test]
fn added_instances_are_not_selected() {
    let mut set = CubesToDraw::new();
    set.add_cube(&Cube::new(CubePos::new(1, 2, 3), Block::GRASS, 2));
    let inst = set.cubes_to_draw()[0];
    assert_eq!(inst.position(), CubePos::new(1, 2, 3));
    assert_eq!(inst.block, Block::GRASS);
    assert_eq!(inst.variant, 2);
    assert!(!inst.is_selected);
}

#[test]
fn add_chunk_walks_layers_rows_and_skips_empty_cells() {
    let cube = |x: i64, y: i64, z: i64| Some(Cube::new(CubePos::new(x, y, z), Block::DIRT, 0));
    let layers = vec![
        vec![vec![cube(0, 0, 0), None], vec![None, cube(0, 1, 1)]],
        vec![vec![], vec![cube(1, 0, 0), cube(1, 0, 1)]],
    ];
    let chunk = Chunk::new(layers);
    let mut set = CubesToDraw::new();
    set.add_cube(&Cube::new(CubePos::new(9, 9, 9), Block::STONE, 0));
    set.add_chunk(&chunk);
    let cells: Vec<CubePos> = set.cubes_to_draw().iter().map(|c| c.position()).collect();
    assert_eq!(
        cells,
        vec![
            CubePos::new(9, 9, 9),
            CubePos::new(0, 0, 0),
            CubePos::new(0, 1, 1),
            CubePos::new(1, 0, 0),
            CubePos::new(1, 0, 1),
        ]
    );
}

#[test]
fn set_cube_to_draw_replaces_everything() {
    let mut set = CubesToDraw::new();
    set.add_cube(&Cube::new(CubePos::new(0, 0, 0), Block::DIRT, 0));
    let mut other = CubesToDraw::new();
    other.add_cube(&Cube::new(CubePos::new(7, 0, 0), Block::STONE, 0));
    other.add_cube(&Cube::new(CubePos::new(8, 0, 0), Block::STONE, 0));
    set.set_cube_to_draw(other.cubes_to_draw().clone());
    assert_eq!(set.number_cubes_rendered(), 2);
    assert_eq!(set.cubes_to_draw()[1].position(), CubePos::new(8, 0, 0));
}

#[test]
fn selecting_leaves_the_set_unchanged() {
    let mut set = CubesToDraw::new();
    set.add_cube(&Cube::new(CubePos::new(0, 0, 0), Block::DIRT, 0));
    set.set_selected_cube(Some(Vec3 { x: 0, y: 0, z: 0 }));
    assert_eq!(set.number_cubes_rendered(), 1);
    assert!(!set.cubes_to_draw()[0].is_selected);
}
