//! Mesh data: flat attribute arrays plus faces referencing them by
//! 1-based indices, and the lookup that resolves a face vertex into an
//! owned `Vertex` value.

use vstd::prelude::*;

use crate::rotation::Angle;
use crate::transform::Transform;
use crate::triangle::Vertex;
use crate::vector2::Vector2;
use crate::vector3::Vector3;

verus! {

/// One corner of a face: a position index plus optional texture
/// coordinate and normal indices, all 1-based.
#[derive(Clone, Copy, Debug, PartialEq)]
pub struct VertexData {
    pub pos: usize,
    pub tex_coord: Option<usize>,
    pub normal: Option<usize>,
}

/// A loaded mesh: attribute arrays, faces as index triples, and the
/// object's placement.
pub struct Model {
    pub data: Vec<(VertexData, VertexData, VertexData)>,
    pub vertices: Vec<Vector3>,
    pub tex_coords: Vec<Vector2>,
    pub normals: Vec<Vector3>,
    pub transform: Transform,
}

/// The indices of one face corner are valid for a model: 1-based and
/// within the respective attribute arrays.
pub open spec fn vertex_data_wf(d: VertexData, m: &Model) -> bool {
    &&& 1 <= d.pos <= m.vertices@.len()
    &&& match d.tex_coord {
        Some(i) => 1 <= i <= m.tex_coords@.len(),
        None => true,
    }
    &&& match d.normal {
        Some(i) => 1 <= i <= m.normals@.len(),
        None => true,
    }
}

impl Vertex {
    /// Resolve a face corner's indices through the model's attribute
    /// arrays.  Invalid indices are a programmer-error contract and
    /// are ruled out by precondition.
    pub fn new(data: &VertexData, model: &Model) -> (r: Vertex)
        requires
            vertex_data_wf(*data, model),
        ensures
            r.pos == model.vertices@[data.pos - 1],
            match data.tex_coord {
                Some(i) => r.tex_coord == Some(model.tex_coords@[i - 1]),
                None => r.tex_coord is None,
            },
            match data.normal {
                Some(i) => r.normal == Some(model.normals@[i - 1]),
                None => r.normal is None,
            },
    {
        let pos: Vector3 = model.vertices[data.pos - 1];
        let tex_coord: Option<Vector2> = match data.tex_coord {
            Some(index) => Some(model.tex_coords[index - 1]),
            None => None,
        };
        let normal: Option<Vector3> = match data.normal {
            Some(index) => Some(model.normals[index - 1]),
            None => None,
        };
        Vertex { pos, tex_coord, normal }
    }
}

impl Model {
    /// A fresh, empty model at the default placement the loader uses:
    /// no rotation, the origin, and a scale of a tenth.
    pub fn empty() -> (r: Model)
        ensures
            r.data@.len() == 0,
            r.vertices@.len() == 0,
            r.tex_coords@.len() == 0,
            r.normals@.len() == 0,
            crate::transform::transform_wf(r.transform),
    {
        Model {
            data: Vec::new(),
            vertices: Vec::new(),
            tex_coords: Vec::new(),
            normals: Vec::new(),
            transform: Transform {
                yaw: Angle::Degrees(crate::fx::Fx { raw: 0 }),
                pitch: Angle::Degrees(crate::fx::Fx { raw: 0 }),
                roll: Angle::Degrees(crate::fx::Fx { raw: 0 }),
                position: Vector3 {
                    x: crate::fx::Fx { raw: 0 },
                    y: crate::fx::Fx { raw: 0 },
                    z: crate::fx::Fx { raw: 0 },
                },
                scale: crate::fx::Fx { raw: 6554 },
            },
        }
    }
}

} // verus!
