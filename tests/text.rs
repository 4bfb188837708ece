use reflax::overlay::blend_text_pixel;
use reflax::text::{decimal_string, screenshot_file_name};
use reflax::Kind;

#[test]
fn decimal_text_of_numbers() {
    assert_eq!(decimal_string(0), "0");
    assert_eq!(decimal_string(7), "7");
    assert_eq!(decimal_string(10), "10");
    assert_eq!(decimal_string(4320), "4320");
    assert_eq!(decimal_string(u128::MAX), u128::MAX.to_string());
}

#[test]
fn screenshot_file_names_are_padded_upper_hex() {
    assert_eq!(screenshot_file_name(0), "screenshot_00000000.bmp");
    assert_eq!(screenshot_file_name(0xDEADBEEF), "screenshot_DEADBEEF.bmp");
    assert_eq!(screenshot_file_name(0x1_2345_6789_ABCD), "screenshot_123456789ABCD.bmp");
}

#[test]
fn text_pixel_blending() {
    assert_eq!(blend_text_pixel([255, 10, 20, 30], 128, [170, 170, 170]), [255, 90, 95, 100]);
    assert_eq!(blend_text_pixel([0, 0, 0, 0], 255, [8, 8, 8]), [255, 8, 8, 8]);
    assert_eq!(blend_text_pixel([200, 40, 50, 60], 0, [8, 8, 8]), [200, 31, 39, 47]);
}

#[test]
fn material_kind_defaults_to_unspecified() {
    assert_eq!(Kind::default(), Kind::Unspecified);
}
