use ris_engine::buffers::cube;
use ris_engine::buffers::face;
use ris_engine::buffers::Axis;
use ris_engine::buffers::Color;
use ris_engine::buffers::Corner;
use ris_engine::buffers::CubeVertex;
use ris_engine::buffers::Face;
use ris_engine::buffers::Rgb;
use ris_engine::buffers::CUBE_VERTICES;

fn vertex(x: i8, y: i8, z: i8, color: Color) -> CubeVertex {
    CubeVertex {
        position: Corner { x, y, z },
        color,
    }
}

#[test]
fn cube_lists_its_vertices_face_by_face() {
    let magenta = Color::Magenta;
    let green = Color::Green;
    let yellow = Color::Yellow;
    let blue = Color::Blue;
    let cyan = Color::Cyan;
    let red = Color::Red;

    let expected = vec![
        vertex(-1, -1, -1, magenta),
        vertex(1, -1, -1, magenta),
        vertex(-1, -1, 1, magenta),
        vertex(1, -1, 1, magenta),
        vertex(-1, -1, 1, magenta),
        vertex(1, -1, -1, magenta),
        vertex(-1, 1, -1, green),
        vertex(1, 1, -1, green),
        vertex(-1, 1, 1, green),
        vertex(1, 1, 1, green),
        vertex(-1, 1, 1, green),
        vertex(1, 1, -1, green),
        vertex(-1, -1, -1, yellow),
        vertex(1, -1, -1, yellow),
        vertex(-1, 1, -1, yellow),
        vertex(1, 1, -1, yellow),
        vertex(-1, 1, -1, yellow),
        vertex(1, -1, -1, yellow),
        vertex(-1, -1, 1, blue),
        vertex(1, -1, 1, blue),
        vertex(-1, 1, 1, blue),
        vertex(1, 1, 1, blue),
        vertex(-1, 1, 1, blue),
        vertex(1, -1, 1, blue),
        vertex(-1, -1, -1, cyan),
        vertex(-1, -1, 1, cyan),
        vertex(-1, 1, -1, cyan),
        vertex(-1, 1, 1, cyan),
        vertex(-1, 1, -1, cyan),
        vertex(-1, -1, 1, cyan),
        vertex(1, -1, -1, red),
        vertex(1, -1, 1, red),
        vertex(1, 1, -1, red),
        vertex(1, 1, 1, red),
        vertex(1, 1, -1, red),
        vertex(1, -1, 1, red),
    ];

    assert_eq!(CUBE_VERTICES, 36);
    assert_eq!(cube(), expected);
}

#[test]
fn cube_faces_have_their_colours() {
    assert_eq!(Color::Red.rgb(), Rgb { r: 1, g: 0, b: 0 });
    assert_eq!(Color::Green.rgb(), Rgb { r: 0, g: 1, b: 0 });
    assert_eq!(Color::Blue.rgb(), Rgb { r: 0, g: 0, b: 1 });
    assert_eq!(Color::Cyan.rgb(), Rgb { r: 0, g: 1, b: 1 });
    assert_eq!(Color::Magenta.rgb(), Rgb { r: 1, g: 0, b: 1 });
    assert_eq!(Color::Yellow.rgb(), Rgb { r: 1, g: 1, b: 0 });

    let faces = [
        (Axis::Y, false, Color::Magenta),
        (Axis::Y, true, Color::Green),
        (Axis::Z, false, Color::Yellow),
        (Axis::Z, true, Color::Blue),
        (Axis::X, false, Color::Cyan),
        (Axis::X, true, Color::Red),
    ];
    for (number, (axis, positive, color)) in faces.iter().enumerate() {
        let side = face(number);
        assert_eq!(
            side,
            Face {
                axis: *axis,
                positive: *positive
            }
        );
        assert_eq!(side.color(), *color);
    }
    assert_eq!(face(6), face(5));
    assert_eq!(face(5).vertex(6), vertex(1, -1, -1, Color::Red));
    assert_eq!(face(5).vertex(1), vertex(1, -1, 1, Color::Red));
}
