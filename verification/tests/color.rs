use acolor::{Color, Srgb8, Srgba8};

#[test]
fn srgb8_reports_its_channels_and_full_opacity() {
    let c = Srgb8::new(10, 20, 30);
    assert_eq!(c.color_red(), 10);
    assert_eq!(c.color_green(), 20);
    assert_eq!(c.color_blue(), 30);
    assert_eq!(c.color_alpha(), 255);
    assert_eq!(c.color_to_array3(), [10, 20, 30]);
    assert_eq!(c.color_to_array4(), [10, 20, 30, 255]);
}

#[test]
fn srgba8_reports_its_channels_and_its_own_alpha() {
    let c = Srgba8::new(10, 20, 30, 40);
    assert_eq!(c.color_red(), 10);
    assert_eq!(c.color_green(), 20);
    assert_eq!(c.color_blue(), 30);
    assert_eq!(c.color_alpha(), 40);
    assert_eq!(c.color_to_array3(), [10, 20, 30]);
    assert_eq!(c.color_to_array4(), [10, 20, 30, 40]);
}

#[test]
fn srgb8_converts_to_both_formats() {
    let c = Srgb8::new(10, 20, 30);
    assert_eq!(c.color_to_srgb8(), c);
    assert_eq!(c.color_to_srgba8(), Srgba8::new(10, 20, 30, 255));
}

#[test]
fn srgba8_converts_to_both_formats() {
    let c = Srgba8::new(10, 20, 30, 40);
    assert_eq!(c.color_to_srgb8(), Srgb8::new(10, 20, 30));
    assert_eq!(c.color_to_srgba8(), c);
}

#[test]
fn opaque_formats_agree_through_the_interface() {
    let c = Srgb8::new(7, 8, 9);
    let d = c.color_to_srgba8();
    assert_eq!(c.color_to_array4(), d.color_to_array4());
    assert_eq!(c.color_to_array3(), d.color_to_array3());
    assert_eq!(d.color_to_srgb8(), c);
    assert_eq!(c.color_alpha(), d.color_alpha());
}
