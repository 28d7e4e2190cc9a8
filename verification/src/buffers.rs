//! The geometry that the renderer uploads: a cube of six coloured faces,
//! each made of two triangles.
//!
//! A vertex is kept in whole numbers: the corner of the unit cube that it
//! sits on, and the colour of its face. The renderer scales the corner to
//! the size it draws.

use vstd::prelude::*;

verus! {

/// The colours of the faces.
#[derive(Clone, Copy, Debug, PartialEq, Eq, Structural)]
pub enum Color {
    Red,
    Green,
    Blue,
    Cyan,
    Magenta,
    Yellow,
}

/// One of the three axes.
#[derive(Clone, Copy, Debug, PartialEq, Eq, Structural)]
pub enum Axis {
    X,
    Y,
    Z,
}

/// A face of the cube: the side that looks along `axis`, forwards where
/// `positive` and backwards else.
#[derive(Clone, Copy, Debug, PartialEq, Eq, Structural)]
pub struct Face {
    pub axis: Axis,
    pub positive: bool,
}

/// A corner of the cube: each coordinate is -1 or 1.
#[derive(Clone, Copy, Debug, PartialEq, Eq, Structural)]
pub struct Corner {
    pub x: i8,
    pub y: i8,
    pub z: i8,
}

/// The red, green and blue parts of a colour, each 0 or 1.
#[derive(Clone, Copy, Debug, PartialEq, Eq, Structural)]
pub struct Rgb {
    pub r: u8,
    pub g: u8,
    pub b: u8,
}

/// A vertex of the cube: a corner and a colour.
#[derive(Clone, Copy, Debug, PartialEq, Eq, Structural)]
pub struct CubeVertex {
    pub position: Corner,
    pub color: Color,
}

/// The number of vertices of a face: two triangles.
pub const VERTICES_PER_FACE: usize = 6;

/// The number of vertices of the cube.
pub const CUBE_VERTICES: usize = 36;

impl Color {
    /// The red, green and blue parts of the colour, each 0 or 1.
    pub open spec fn spec_rgb(self) -> Rgb {
        match self {
            Color::Red => Rgb { r: 1, g: 0, b: 0 },
            Color::Green => Rgb { r: 0, g: 1, b: 0 },
            Color::Blue => Rgb { r: 0, g: 0, b: 1 },
            Color::Cyan => Rgb { r: 0, g: 1, b: 1 },
            Color::Magenta => Rgb { r: 1, g: 0, b: 1 },
            Color::Yellow => Rgb { r: 1, g: 1, b: 0 },
        }
    }

    /// The red, green and blue parts of the colour, each 0 or 1.
    #[verifier::when_used_as_spec(spec_rgb)]
    pub fn rgb(self) -> (rgb: Rgb)
        ensures
            rgb == self.spec_rgb(),
    {
        match self {
            Color::Red => Rgb { r: 1, g: 0, b: 0 },
            Color::Green => Rgb { r: 0, g: 1, b: 0 },
            Color::Blue => Rgb { r: 0, g: 0, b: 1 },
            Color::Cyan => Rgb { r: 0, g: 1, b: 1 },
            Color::Magenta => Rgb { r: 1, g: 0, b: 1 },
            Color::Yellow => Rgb { r: 1, g: 1, b: 0 },
        }
    }
}

/// The faces in the order in which the cube lists them. A number past
/// the last face gives the last face.
pub open spec fn spec_face(number: int) -> Face {
    if number == 0 {
        Face { axis: Axis::Y, positive: false }
    } else if number == 1 {
        Face { axis: Axis::Y, positive: true }
    } else if number == 2 {
        Face { axis: Axis::Z, positive: false }
    } else if number == 3 {
        Face { axis: Axis::Z, positive: true }
    } else if number == 4 {
        Face { axis: Axis::X, positive: false }
    } else {
        Face { axis: Axis::X, positive: true }
    }
}

impl Face {
    /// The colour of the face.
    pub open spec fn spec_color(self) -> Color {
        match (self.axis, self.positive) {
            (Axis::Y, false) => Color::Magenta,
            (Axis::Y, true) => Color::Green,
            (Axis::Z, false) => Color::Yellow,
            (Axis::Z, true) => Color::Blue,
            (Axis::X, false) => Color::Cyan,
            (Axis::X, true) => Color::Red,
        }
    }

    /// The colour of the face.
    #[verifier::when_used_as_spec(spec_color)]
    pub fn color(self) -> (color: Color)
        ensures
            color == self.spec_color(),
    {
        match (self.axis, self.positive) {
            (Axis::Y, false) => Color::Magenta,
            (Axis::Y, true) => Color::Green,
            (Axis::Z, false) => Color::Yellow,
            (Axis::Z, true) => Color::Blue,
            (Axis::X, false) => Color::Cyan,
            (Axis::X, true) => Color::Red,
        }
    }

    /// The coordinate in which the face is flat.
    pub open spec fn spec_level(self) -> i8 {
        if self.positive {
            1
        } else {
            -1i8
        }
    }

    /// The corner of vertex number `corner` of the face, for `corner`
    /// from 0 to 5. Over the two axes in which the face spreads, the first
    /// triangle takes (-1, -1), (1, -1), (-1, 1) and the second
    /// (1, 1), (-1, 1), (1, -1). Any other number gives (-1, -1). The two
    /// axes are x and z for a face that looks along y, x and y for one that
    /// looks along z, and z and y for one that looks along x.
    pub open spec fn spec_corner(self, corner: int) -> Corner {
        let first: i8 = if corner == 1 || corner == 3 || corner == 5 {
            1
        } else {
            -1i8
        };
        let second: i8 = if corner == 2 || corner == 3 || corner == 4 {
            1
        } else {
            -1i8
        };
        match self.axis {
            Axis::X => Corner { x: self.spec_level(), y: second, z: first },
            Axis::Y => Corner { x: first, y: self.spec_level(), z: second },
            Axis::Z => Corner { x: first, y: second, z: self.spec_level() },
        }
    }

    /// Vertex number `corner` of the face.
    pub open spec fn spec_vertex(self, corner: int) -> CubeVertex {
        CubeVertex { position: self.spec_corner(corner), color: self.spec_color() }
    }

    /// Vertex number `corner` of the face.
    pub fn vertex(self, corner: usize) -> (vertex: CubeVertex)
        ensures
            vertex == self.spec_vertex(corner as int),
    {
        let level: i8 = if self.positive {
            1
        } else {
            -1i8
        };
        let first: i8 = if corner == 1 || corner == 3 || corner == 5 {
            1
        } else {
            -1i8
        };
        let second: i8 = if corner == 2 || corner == 3 || corner == 4 {
            1
        } else {
            -1i8
        };
        let position = match self.axis {
            Axis::X => Corner { x: level, y: second, z: first },
            Axis::Y => Corner { x: first, y: level, z: second },
            Axis::Z => Corner { x: first, y: second, z: level },
        };
        CubeVertex { position, color: self.color() }
    }
}

/// Face number `number` of the cube, in the order in which the cube lists
/// its faces.
pub fn face(number: usize) -> (face: Face)
    ensures
        face == spec_face(number as int),
{
    if number == 0 {
        Face { axis: Axis::Y, positive: false }
    } else if number == 1 {
        Face { axis: Axis::Y, positive: true }
    } else if number == 2 {
        Face { axis: Axis::Z, positive: false }
    } else if number == 3 {
        Face { axis: Axis::Z, positive: true }
    } else if number == 4 {
        Face { axis: Axis::X, positive: false }
    } else {
        Face { axis: Axis::X, positive: true }
    }
}

/// Vertex number `index` of the cube.
pub open spec fn spec_cube_vertex(index: int) -> CubeVertex {
    spec_face(index / 6).spec_vertex(index % 6)
}

/// The vertices of the cube, face by face.
pub fn cube() -> (vertices: Vec<CubeVertex>)
    ensures
        vertices.len() == CUBE_VERTICES,
        forall|index: int|
            0 <= index < CUBE_VERTICES ==> #[trigger] vertices[index] == spec_cube_vertex(index),
{
    let mut vertices: Vec<CubeVertex> = Vec::new();
    let mut number: usize = 0;
    while number < 6
        invariant
            number <= 6,
            vertices.len() == number * 6,
            forall|index: int|
                0 <= index < number * 6 ==> #[trigger] vertices[index] == spec_cube_vertex(index),
        decreases 6 - number,
    {
        let side = face(number);
        let mut corner: usize = 0;
        while corner < VERTICES_PER_FACE
            invariant
                number < 6,
                corner <= VERTICES_PER_FACE,
                side == spec_face(number as int),
                vertices.len() == number * 6 + corner,
                forall|index: int|
                    0 <= index < number * 6 + corner ==> #[trigger] vertices[index]
                        == spec_cube_vertex(index),
            decreases VERTICES_PER_FACE - corner,
        {
            vertices.push(side.vertex(corner));
            corner = corner + 1;
        }
        number = number + 1;
    }
    vertices
}

/// Every vertex of a face lies in the plane of the face and on a corner
/// of the cube, and the two triangles of a face cover its four corners.
pub proof fn lemma_face_is_a_square(face: Face, corner: int)
    requires
        0 <= corner < 6,
    ensures
        ({
            let position = face.spec_corner(corner);
            &&& position.x == 1 || position.x == -1
            &&& position.y == 1 || position.y == -1
            &&& position.z == 1 || position.z == -1
            &&& match face.axis {
                Axis::X => position.x == face.spec_level(),
                Axis::Y => position.y == face.spec_level(),
                Axis::Z => position.z == face.spec_level(),
            }
        }),
        face.spec_corner(2) == face.spec_corner(4),
        face.spec_corner(1) == face.spec_corner(5),
        face.spec_corner(0) != face.spec_corner(3),
        face.spec_corner(1) != face.spec_corner(2),
{
}

} // verus!
