use compositor_canvas::hello::nested::{extern_output, output};

#[test]
fn test_output() {
    assert_eq!(output(), "Hello, world!".to_string());
}

#[test]
fn test_extern_output() {
    assert_eq!(output(), extern_output());
}
