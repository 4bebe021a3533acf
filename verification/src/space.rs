//! Spatial model: transforms, meshes, geometry slices, bounds and the world
//! that resolves node pointers to transforms.

use vstd::prelude::*;

verus! {

/// Pointer to a node inside a [`World`]: an index into its transform list.
pub type NodeId = usize;

/// Largest coordinate magnitude a well-formed transform may carry. Keeping
/// stored transforms inside this range lets a view-projection be composed from
/// three of them without any addition overflowing an `i64`.
pub const COORD_LIMIT: i64 = 0x1000_0000_0000_0000;

/// A spatial transform, modelled as a translation with integer coordinates.
/// Composition adds the offsets and inversion negates them, which gives the
/// transform algebra the traversal needs (compose, invert) in plain values.
#[derive(Clone, Copy, PartialEq, Eq, Structural, Debug)]
pub struct Transform {
    pub x: i64,
    pub y: i64,
    pub z: i64,
}

impl Transform {
    /// All coordinates within [`COORD_LIMIT`].
    pub open spec fn in_range(self) -> bool {
        &&& -COORD_LIMIT <= self.x <= COORD_LIMIT
        &&& -COORD_LIMIT <= self.y <= COORD_LIMIT
        &&& -COORD_LIMIT <= self.z <= COORD_LIMIT
    }

    /// Coordinates within twice [`COORD_LIMIT`]: the range of a composition
    /// of two well-formed transforms, such as a view-projection.
    pub open spec fn in_wide_range(self) -> bool {
        &&& -2 * COORD_LIMIT <= self.x <= 2 * COORD_LIMIT
        &&& -2 * COORD_LIMIT <= self.y <= 2 * COORD_LIMIT
        &&& -2 * COORD_LIMIT <= self.z <= 2 * COORD_LIMIT
    }

    pub open spec fn spec_concat(self, other: Transform) -> Transform {
        Transform {
            x: (self.x + other.x) as i64,
            y: (self.y + other.y) as i64,
            z: (self.z + other.z) as i64,
        }
    }

    pub open spec fn spec_invert(self) -> Transform {
        Transform { x: (-self.x) as i64, y: (-self.y) as i64, z: (-self.z) as i64 }
    }

    /// The identity transform.
    pub fn identity() -> (r: Transform)
        ensures
            r == (Transform { x: 0i64, y: 0i64, z: 0i64 }),
    {
        Transform { x: 0, y: 0, z: 0 }
    }

    /// Compose this transform with another one.
    pub fn concat(&self, other: &Transform) -> (r: Transform)
        requires
            i64::MIN <= self.x + other.x <= i64::MAX,
            i64::MIN <= self.y + other.y <= i64::MAX,
            i64::MIN <= self.z + other.z <= i64::MAX,
        ensures
            r == self.spec_concat(*other),
    {
        Transform { x: self.x + other.x, y: self.y + other.y, z: self.z + other.z }
    }

    /// Invert this transform.
    pub fn invert(&self) -> (r: Transform)
        requires
            self.x != i64::MIN,
            self.y != i64::MIN,
            self.z != i64::MIN,
        ensures
            r == self.spec_invert(),
    {
        Transform { x: -self.x, y: -self.y, z: -self.z }
    }
}

/// Composing a transform with its inverse yields the identity.
pub proof fn lemma_invert_cancels(t: Transform)
    requires
        t.in_range(),
    ensures
        t.spec_concat(t.spec_invert()) == (Transform { x: 0i64, y: 0i64, z: 0i64 }),
{
}

/// A contiguous slice of a mesh's geometry: the unit submitted per draw call.
#[derive(Clone, Copy, PartialEq, Eq, Structural, Debug)]
pub struct Slice {
    pub start: u32,
    pub end: u32,
}

impl Slice {
    pub open spec fn spec_prim_count(self) -> u32 {
        if self.start <= self.end {
            (self.end - self.start) as u32
        } else {
            0u32
        }
    }

    /// Number of primitives this slice covers.
    pub fn get_prim_count(&self) -> (r: u32)
        ensures
            r == self.spec_prim_count(),
    {
        if self.start <= self.end {
            self.end - self.start
        } else {
            0
        }
    }
}

/// A mesh description: a topology class (the part of mesh identity a
/// technique's essence depends on), a vertex count and a list of vertex
/// attribute identifiers.
#[derive(Debug)]
pub struct Mesh {
    pub topology: u32,
    pub num_vertices: u32,
    pub attributes: Vec<u64>,
}

/// A spatial bound for culling: a sphere given by its center and radius.
#[derive(Clone, Copy, PartialEq, Eq, Structural, Debug)]
pub struct Bound {
    pub cx: i64,
    pub cy: i64,
    pub cz: i64,
    pub radius: i64,
}

impl Bound {
    pub open spec fn wf(self) -> bool {
        &&& -COORD_LIMIT <= self.cx <= COORD_LIMIT
        &&& -COORD_LIMIT <= self.cy <= COORD_LIMIT
        &&& -COORD_LIMIT <= self.cz <= COORD_LIMIT
        &&& 0 <= self.radius <= COORD_LIMIT
    }
}

/// The spatial resolver: maps a node pointer to that node's transform and has
/// no further responsibilities.
#[derive(Debug)]
pub struct World {
    pub transforms: Vec<Transform>,
}

impl World {
    /// Every stored transform is within coordinate range.
    pub open spec fn wf(self) -> bool {
        forall|i: int| 0 <= i < self.transforms@.len() ==> self.transforms@[i].in_range()
    }

    pub fn new() -> (r: World)
        ensures
            r.transforms@ == Seq::<Transform>::empty(),
    {
        World { transforms: Vec::new() }
    }

    /// Resolve the transform of a node.
    pub fn get_transform(&self, node: NodeId) -> (r: Transform)
        requires
            node < self.transforms@.len(),
        ensures
            r == self.transforms@[node as int],
    {
        self.transforms[node]
    }
}

} // verus!
