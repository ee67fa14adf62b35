use lissajous::color::{lerp, Rgba};

#[test]
fn lerp_averages_each_channel() {
    let c1 = Rgba::new(10, 20, 30, 255);
    let c2 = Rgba::new(20, 40, 50, 255);
    let mixed = lerp(&c1, &c2);
    assert_eq!(mixed, Rgba::new(15, 30, 40, 255));
}

#[test]
fn lerp_rounds_odd_sums_to_nearest() {
    let c1 = Rgba::new(1, 3, 255, 255);
    let c2 = Rgba::new(2, 4, 0, 255);
    let mixed = lerp(&c1, &c2);
    assert_eq!(mixed, Rgba::new(2, 4, 128, 255));
}

#[test]
fn lerp_is_symmetric() {
    let c1 = Rgba::new(7, 200, 33, 51);
    let c2 = Rgba::new(250, 1, 99, 255);
    assert_eq!(lerp(&c1, &c2), lerp(&c2, &c1));
}

#[test]
fn lerp_of_equal_opaque_colors_is_identity() {
    let c = Rgba::new(123, 0, 255, 255);
    assert_eq!(lerp(&c, &c), c);
}

#[test]
fn lerp_forces_full_alpha() {
    let c1 = Rgba::new(0, 0, 0, 0);
    let c2 = Rgba::new(0, 0, 0, 10);
    assert_eq!(lerp(&c1, &c2).a, 255);
}
