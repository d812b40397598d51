use skia::egl_attributes::{config_attributes, context_attributes, image_attributes, pbuffer_attributes};
use skia::geometry::Size2D;

#[test]
fn config_asks_for_rgba8_es2_pbuffer() {
    assert_eq!(
        config_attributes(),
        vec![0x3033, 0x0001, 0x3040, 0x0004, 0x3024, 8, 0x3023, 8, 0x3022, 8, 0x3021, 8, 0x3038]
    );
}

#[test]
fn context_asks_for_es2() {
    assert_eq!(context_attributes(), vec![0x3098, 2, 0x3038]);
}

#[test]
fn pbuffer_has_context_size() {
    assert_eq!(pbuffer_attributes(Size2D::new(256, 128)), vec![0x3057, 256, 0x3056, 128, 0x3038]);
}

#[test]
fn image_is_preserved() {
    assert_eq!(image_attributes(), vec![0x30D2, 1, 0x3038, 0x3038]);
}

#[test]
fn size_validity() {
    assert!(Size2D::new(1, 1).is_positive());
    assert!(!Size2D::new(0, 5).is_positive());
    assert!(!Size2D::new(5, -1).is_positive());
}
