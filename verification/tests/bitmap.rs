use fullscreenizer::bitmap::DibLayout;
use fullscreenizer::bitmap::dib_layout;

#[test]
fn layout_of_a_32_by_32_icon() {
    assert_eq!(
        dib_layout(32, 32),
        Some(DibLayout { stride: 128, color_bytes: 4096, mask_bytes: 128 })
    );
}

#[test]
fn layout_of_an_odd_size() {
    // 20 x 20 at 125% scaling: the mask packs one bit per pixel.
    assert_eq!(
        dib_layout(25, 25),
        Some(DibLayout { stride: 100, color_bytes: 2500, mask_bytes: 78 })
    );
}

#[test]
fn zero_sized_image_has_empty_planes() {
    assert_eq!(
        dib_layout(0, 17),
        Some(DibLayout { stride: 0, color_bytes: 0, mask_bytes: 0 })
    );
}

#[test]
fn oversized_image_is_rejected() {
    assert_eq!(dib_layout(u32::MAX, 1), None);
    assert_eq!(dib_layout(1 << 20, 1 << 12), None);
}
