use compositor_canvas::gl;
use web_sys::WebGlRenderingContext;

#[test]
fn enumerants_are_those_of_the_bindings() {
    assert_eq!(gl::COLOR_BUFFER_BIT, WebGlRenderingContext::COLOR_BUFFER_BIT);
    assert_eq!(gl::TRIANGLES, WebGlRenderingContext::TRIANGLES);
    assert_eq!(gl::ARRAY_BUFFER, WebGlRenderingContext::ARRAY_BUFFER);
    assert_eq!(gl::STATIC_DRAW, WebGlRenderingContext::STATIC_DRAW);
    assert_eq!(gl::UNSIGNED_BYTE, WebGlRenderingContext::UNSIGNED_BYTE);
    assert_eq!(gl::FLOAT, WebGlRenderingContext::FLOAT);
    assert_eq!(gl::RGBA, WebGlRenderingContext::RGBA);
    assert_eq!(gl::FRAGMENT_SHADER, WebGlRenderingContext::FRAGMENT_SHADER);
    assert_eq!(gl::VERTEX_SHADER, WebGlRenderingContext::VERTEX_SHADER);
    assert_eq!(gl::COMPILE_STATUS, WebGlRenderingContext::COMPILE_STATUS);
    assert_eq!(gl::LINK_STATUS, WebGlRenderingContext::LINK_STATUS);
    assert_eq!(gl::NEAREST, WebGlRenderingContext::NEAREST);
    assert_eq!(gl::TEXTURE_MAG_FILTER, WebGlRenderingContext::TEXTURE_MAG_FILTER);
    assert_eq!(gl::TEXTURE_MIN_FILTER, WebGlRenderingContext::TEXTURE_MIN_FILTER);
    assert_eq!(gl::TEXTURE_2D, WebGlRenderingContext::TEXTURE_2D);
}

#[test]
fn enumerants_have_their_standard_values() {
    assert_eq!(gl::COLOR_BUFFER_BIT, 16384);
    assert_eq!(gl::TRIANGLES, 4);
    assert_eq!(gl::ARRAY_BUFFER, 34962);
    assert_eq!(gl::STATIC_DRAW, 35044);
    assert_eq!(gl::UNSIGNED_BYTE, 5121);
    assert_eq!(gl::FLOAT, 5126);
    assert_eq!(gl::RGBA, 6408);
    assert_eq!(gl::FRAGMENT_SHADER, 35632);
    assert_eq!(gl::VERTEX_SHADER, 35633);
    assert_eq!(gl::COMPILE_STATUS, 35713);
    assert_eq!(gl::LINK_STATUS, 35714);
    assert_eq!(gl::NEAREST, 9728);
    assert_eq!(gl::TEXTURE_MAG_FILTER, 10240);
    assert_eq!(gl::TEXTURE_MIN_FILTER, 10241);
    assert_eq!(gl::TEXTURE_2D, 3553);
}

#[test]
fn location_that_was_found_is_its_own_index() {
    assert_eq!(gl::attribute_index(0), 0);
    assert_eq!(gl::attribute_index(1), 1);
    assert_eq!(gl::attribute_index(i32::MAX), 2147483647);
}

#[test]
fn location_that_was_not_found_is_the_last_index() {
    assert_eq!(gl::attribute_index(-1), 4294967295);
    assert_eq!(gl::attribute_index(-1), u32::MAX);
}

#[test]
fn index_has_the_bits_of_the_location() {
    for location in [i32::MIN, i32::MIN + 1, -2, -1, 0, 1, 7, i32::MAX] {
        assert_eq!(gl::attribute_index(location), location as u32);
    }
}
