//! Vertices and meshes.
//!
//! Real-valued attributes are held as IEEE-754 binary32 bit patterns: the
//! library moves and compares them but never does arithmetic on them, and the
//! vertex buffer that the shader reads is defined bit for bit.

use vstd::prelude::*;

verus! {

/// The most vertices a mesh can hold: the range of a 32-bit vertex index.
pub const MAX_VERTICES: usize = 0xFFFF_FFFF;

/// Bit pattern of the binary32 value zero.
pub const ZERO_BITS: u32 = 0;

/// Bit pattern of the binary32 value one.
pub const ONE_BITS: u32 = 0x3F80_0000;

/// A binary32 value, held by its bit pattern.
#[derive(Clone, Copy, Debug, PartialEq, Eq, Structural)]
pub struct Scalar {
    pub bits: u32,
}

impl Scalar {
    /// The value zero.
    pub open spec fn spec_zero() -> Scalar {
        Scalar { bits: ZERO_BITS }
    }

    /// The value one.
    pub open spec fn spec_one() -> Scalar {
        Scalar { bits: ONE_BITS }
    }

    /// The scalar with the given bit pattern.
    pub fn from_bits(bits: u32) -> (s: Scalar)
        ensures
            s.bits == bits,
    {
        Scalar { bits }
    }

    /// The bit pattern of this scalar.
    pub fn to_bits(self) -> (bits: u32)
        ensures
            bits == self.bits,
    {
        self.bits
    }

    /// The value zero.
    #[verifier::when_used_as_spec(spec_zero)]
    pub fn zero() -> (s: Scalar)
        ensures
            s == Scalar::spec_zero(),
    {
        Scalar { bits: ZERO_BITS }
    }

    /// The value one.
    #[verifier::when_used_as_spec(spec_one)]
    pub fn one() -> (s: Scalar)
        ensures
            s == Scalar::spec_one(),
    {
        Scalar { bits: ONE_BITS }
    }
}

/// A vector of two scalars.
#[derive(Clone, Copy, Debug, PartialEq, Eq, Structural)]
pub struct Vector2 {
    pub x: Scalar,
    pub y: Scalar,
}

/// A vector of three scalars.
#[derive(Clone, Copy, Debug, PartialEq, Eq, Structural)]
pub struct Vector3 {
    pub x: Scalar,
    pub y: Scalar,
    pub z: Scalar,
}

/// One mesh vertex: where it lies, which way its surface faces, and where it
/// maps into texture space.
#[derive(Clone, Copy, Debug, PartialEq, Eq, Structural)]
pub struct Vertex {
    pub position: Vector3,
    pub normal: Vector3,
    pub uv: Vector2,
}

/// Why a mesh could not be built.
#[derive(Clone, Copy, Debug, PartialEq, Eq, Structural)]
pub enum MeshError {
    /// The generator was handed parameters it cannot build a sphere from.
    InvalidParameter,
    /// The vertices do not form whole quads of two triangles each.
    MalformedMesh,
}

/// An ordered list of vertices, three per triangle, with no shared indices.
///
/// A mesh never holds more than [`MAX_VERTICES`] vertices.
#[derive(Debug, PartialEq, Eq)]
pub struct Mesh {
    vertices: Vec<Vertex>,
}

impl View for Mesh {
    type V = Seq<Vertex>;

    closed spec fn view(&self) -> Seq<Vertex> {
        self.vertices@
    }
}

impl Clone for Mesh {
    fn clone(&self) -> (copy: Mesh)
        ensures
            copy@ == self@,
    {
        proof {
            use_type_invariant(self);
        }
        Mesh { vertices: self.vertices.clone() }
    }
}

impl Mesh {
    #[verifier::type_invariant]
    spec fn within_limit(self) -> bool {
        self.vertices@.len() <= MAX_VERTICES
    }

    /// The mesh made of `vertices`, in their order, or `None` where there are
    /// more than [`MAX_VERTICES`] of them.
    pub fn from_vertices(vertices: Vec<Vertex>) -> (mesh: Option<Mesh>)
        ensures
            match mesh {
                Some(m) => vertices@.len() <= MAX_VERTICES && m@ == vertices@,
                None => vertices@.len() > MAX_VERTICES,
            },
    {
        if vertices.len() <= MAX_VERTICES {
            Some(Mesh { vertices })
        } else {
            None
        }
    }

    /// The number of vertices.
    pub fn len(&self) -> (n: usize)
        ensures
            n == self@.len(),
            n <= MAX_VERTICES,
    {
        proof {
            use_type_invariant(self);
        }
        self.vertices.len()
    }

    /// The vertex at `index`, or `None` past the end.
    pub fn get(&self, index: usize) -> (vertex: Option<Vertex>)
        ensures
            match vertex {
                Some(v) => index < self@.len() && v == self@[index as int],
                None => index >= self@.len(),
            },
    {
        if index < self.vertices.len() {
            Some(self.vertices[index])
        } else {
            None
        }
    }

    /// The vertices, in order.
    pub fn vertices(&self) -> (vertices: &Vec<Vertex>)
        ensures
            vertices@ == self@,
    {
        &self.vertices
    }
}

} // verus!
