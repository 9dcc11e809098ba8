use vstd::prelude::*;
use crate::camera::Vec3;
use crate::cubes::{instance_of, Chunk, Cube, CubeInstance, CubePos};

verus! {

/// Instances of the cubes of a row, in order, skipping empty cells.
pub open spec fn row_instances(row: Seq<Option<Cube>>) -> Seq<CubeInstance>
    decreases row.len(),
{
    if row.len() == 0 {
        seq![]
    } else {
        row_instances(row.drop_last()) + match row.last() {
            Some(c) => seq![instance_of(c)],
            None => seq![],
        }
    }
}

/// Instances of the cubes of a layer, row after row.
pub open spec fn layer_instances(layer: Seq<Vec<Option<Cube>>>) -> Seq<CubeInstance>
    decreases layer.len(),
{
    if layer.len() == 0 {
        seq![]
    } else {
        layer_instances(layer.drop_last()) + row_instances(layer.last()@)
    }
}

/// Instances of the cubes of a chunk, layer after layer.
pub open spec fn chunk_instances(layers: Seq<Vec<Vec<Option<Cube>>>>) -> Seq<CubeInstance>
    decreases layers.len(),
{
    if layers.len() == 0 {
        seq![]
    } else {
        chunk_instances(layers.drop_last()) + layer_instances(layers.last()@)
    }
}

/// Whether `i` is the first index of an instance at cell `p`.
pub open spec fn first_at(s: Seq<CubeInstance>, p: CubePos, i: int) -> bool {
    &&& 0 <= i < s.len()
    &&& s[i].position == p
    &&& forall|j: int| 0 <= j < i ==> s[j].position != p
}

/// The cube instances handed to the renderer, and the index of the selected
/// one, if any.
pub struct CubesToDraw {
    cubes_to_draw: Vec<CubeInstance>,
    selected_cube_index: Option<usize>,
}

impl CubesToDraw {
    pub closed spec fn instances(&self) -> Seq<CubeInstance> {
        self.cubes_to_draw@
    }

    pub closed spec fn selected(&self) -> Option<usize> {
        self.selected_cube_index
    }

    /// Nothing to draw, nothing selected.
    pub fn new() -> (r: CubesToDraw)
        ensures
            r.instances() == Seq::<CubeInstance>::empty(),
            r.selected() == None::<usize>,
    {
        CubesToDraw { cubes_to_draw: Vec::new(), selected_cube_index: None }
    }

    /// Replaces the instances to draw.
    pub fn set_cube_to_draw(&mut self, cubes_to_draw: Vec<CubeInstance>)
        ensures
            final(self).instances() == cubes_to_draw@,
            final(self).selected() == old(self).selected(),
    {
        self.cubes_to_draw = cubes_to_draw;
    }

    /// Appends the instance of a cube.
    pub fn add_cube(&mut self, c: &Cube)
        ensures
            final(self).instances() == old(self).instances().push(instance_of(*c)),
            final(self).selected() == old(self).selected(),
    {
        self.cubes_to_draw.push(CubeInstance::new(c));
    }

    /// Removes the first instance at cell `position`, moving the last instance
    /// into its place, and clears the selection if it was that instance. Where
    /// no instance is at that cell nothing changes.
    pub fn remove_cube(&mut self, position: &CubePos)
        ensures
            (forall|i: int| 0 <= i < old(self).instances().len()
                ==> old(self).instances()[i].position != *position) ==> *final(self)
                == *old(self),
            forall|i: int| #[trigger]
                first_at(old(self).instances(), *position, i) ==> {
                    &&& final(self).instances() == old(self).instances().update(
                        i,
                        old(self).instances().last(),
                    ).drop_last()
                    &&& final(self).selected() == if old(self).selected() == Some(i as usize) {
                        None
                    } else {
                        old(self).selected()
                    }
                },
    {
        let n = self.cubes_to_draw.len();
        let mut i: usize = 0;
        while i < n
            invariant
                n == self.cubes_to_draw.len(),
                *self == *old(self),
                i <= n,
                forall|j: int| 0 <= j < i ==> self.cubes_to_draw@[j].position != *position,
            decreases n - i,
        {
            if self.cubes_to_draw[i].position() == *position {
                if self.selected_cube_index == Some(i) {
                    self.selected_cube_index = None;
                }
                self.cubes_to_draw.swap_remove(i);
                assert(first_at(old(self).instances(), *position, i as int));
                assert forall|k: int| #[trigger]
                    first_at(old(self).instances(), *position, k) implies k == i by {
                    if k < i {
                    } else if k > i {
                        assert(!(old(self).instances()[i as int].position != *position));
                    }
                }
                return;
            }
            i = i + 1;
        }
    }

    /// Selection highlighting is switched off: the set is left as it is.
    pub fn set_selected_cube(&mut self, selected_cube: Option<Vec3>)
        ensures
            *final(self) == *old(self),
    {
    }

    pub fn cubes_to_draw(&self) -> (r: &Vec<CubeInstance>)
        ensures
            r@ == self.instances(),
    {
        &self.cubes_to_draw
    }

    pub fn number_cubes_rendered(&self) -> (r: usize)
        ensures
            r == self.instances().len(),
    {
        self.cubes_to_draw.len()
    }

    /// Appends the instance of every cube of a chunk, layer by layer and row
    /// by row, skipping empty cells.
    pub fn add_chunk(&mut self, chunk: &Chunk)
        ensures
            final(self).instances() == old(self).instances() + chunk_instances(chunk.cubes@),
            final(self).selected() == old(self).selected(),
    {
        let layers = chunk.cubes();
        let mut i: usize = 0;
        while i < layers.len()
            invariant
                layers@ == chunk.cubes@,
                i <= layers.len(),
                self.selected() == old(self).selected(),
                self.instances() == old(self).instances() + chunk_instances(layers@.take(i as int)),
            decreases layers.len() - i,
        {
            let layer = &layers[i];
            let before = Ghost(self.instances());
            let mut j: usize = 0;
            while j < layer.len()
                invariant
                    i < layers.len(),
                    layer == layers@[i as int],
                    j <= layer.len(),
                    self.selected() == old(self).selected(),
                    self.instances() == before@ + layer_instances(layer@.take(j as int)),
                decreases layer.len() - j,
            {
                let row = &layer[j];
                let mid = Ghost(self.instances());
                let mut k: usize = 0;
                while k < row.len()
                    invariant
                        j < layer.len(),
                        row == layer@[j as int],
                        k <= row.len(),
                        self.selected() == old(self).selected(),
                        self.instances() == mid@ + row_instances(row@.take(k as int)),
                    decreases row.len() - k,
                {
                    if let Some(c) = &row[k] {
                        self.add_cube(c);
                    }
                    proof {
                        let t = row@.take(k as int + 1);
                        assert(t.drop_last() =~= row@.take(k as int));
                        assert(t.last() == row@[k as int]);
                    }
                    k = k + 1;
                }
                proof {
                    assert(row@.take(row@.len() as int) =~= row@);
                    let t = layer@.take(j as int + 1);
                    assert(t.drop_last() =~= layer@.take(j as int));
                    assert(t.last() == layer@[j as int]);
                }
                j = j + 1;
            }
            proof {
                assert(layer@.take(layer@.len() as int) =~= layer@);
                let t = layers@.take(i as int + 1);
                assert(t.drop_last() =~= layers@.take(i as int));
                assert(t.last() == layers@[i as int]);
            }
            i = i + 1;
        }
        proof {
            assert(layers@.take(layers@.len() as int) =~= layers@);
        }
    }
}

} // verus!
