use compositor_canvas::quad::{
    PLACEHOLDER_PIXEL, PLACEHOLDER_SIDE, POSITION_COMPONENTS, QUAD_POSITIONS,
    QUAD_TEXTURE_COORDS, QUAD_VERTICES, TEXTURE_COMPONENTS,
};

#[test]
fn position_buffer_holds_eighteen_numbers() {
    assert_eq!(QUAD_POSITIONS, [-1, -1, 0, 1, -1, 0, 1, 1, 0, -1, -1, 0, 1, 1, 0, -1, 1, 0]);
    assert_eq!(QUAD_POSITIONS.len(), 18);
    assert_eq!(QUAD_POSITIONS.len() as i32, POSITION_COMPONENTS * QUAD_VERTICES);
}

#[test]
fn texture_coordinate_buffer_holds_twelve_numbers() {
    assert_eq!(QUAD_TEXTURE_COORDS, [0, 0, 1, 0, 1, 1, 0, 0, 1, 1, 0, 1]);
    assert_eq!(QUAD_TEXTURE_COORDS.len(), 12);
    assert_eq!(QUAD_TEXTURE_COORDS.len() as i32, TEXTURE_COMPONENTS * QUAD_VERTICES);
}

#[test]
fn positions_span_the_square_in_the_plane() {
    let mut corners = Vec::new();
    for vertex in QUAD_POSITIONS.chunks(3) {
        assert!(vertex[0] == -1 || vertex[0] == 1);
        assert!(vertex[1] == -1 || vertex[1] == 1);
        assert_eq!(vertex[2], 0);
        if !corners.contains(&(vertex[0], vertex[1])) {
            corners.push((vertex[0], vertex[1]));
        }
    }
    corners.sort();
    assert_eq!(corners, vec![(-1, -1), (-1, 1), (1, -1), (1, 1)]);
}

#[test]
fn texture_coordinates_follow_the_positions() {
    for vertex in 0..QUAD_VERTICES as usize {
        let (x, y) = (QUAD_POSITIONS[3 * vertex], QUAD_POSITIONS[3 * vertex + 1]);
        let (u, v) = (QUAD_TEXTURE_COORDS[2 * vertex], QUAD_TEXTURE_COORDS[2 * vertex + 1]);
        assert_eq!((2 * u - 1, 2 * v - 1), (x, y));
    }
}

#[test]
fn coordinates_convert_to_floats_exactly() {
    let floats: Vec<f32> = QUAD_POSITIONS.iter().map(|&number| number as f32).collect();
    assert_eq!(
        floats,
        vec![
            -1.0, -1.0, 0.0, 1.0, -1.0, 0.0, 1.0, 1.0, 0.0, -1.0, -1.0, 0.0, 1.0, 1.0, 0.0, -1.0,
            1.0, 0.0
        ]
    );
    let floats: Vec<f32> = QUAD_TEXTURE_COORDS.iter().map(|&number| number as f32).collect();
    assert_eq!(floats, vec![0.0, 0.0, 1.0, 0.0, 1.0, 1.0, 0.0, 0.0, 1.0, 1.0, 0.0, 1.0]);
}

#[test]
fn placeholder_is_one_opaque_white_pixel() {
    assert_eq!(PLACEHOLDER_SIDE, 1);
    assert_eq!(PLACEHOLDER_PIXEL, [255u8; 4]);
}
