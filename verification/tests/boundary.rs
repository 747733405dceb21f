use autoclicker::icon::{icon_from_pixels, load_icon, IconData, IconError};
use autoclicker::input::{both_events_sent, click_events, key_press_events, InputEvent};
use autoclicker::text::{around_number, decimal_string, join, with_number};

#[test]
fn an_icon_is_decoded_to_four_bytes_a_pixel() {
    let mut image = image::RgbImage::new(3, 2);
    for (i, pixel) in image.pixels_mut().enumerate() {
        *pixel = image::Rgb([i as u8, 10 * i as u8, 200]);
    }
    let mut encoded = std::io::Cursor::new(Vec::new());
    image.write_to(&mut encoded, image::ImageOutputFormat::Png).unwrap();
    let icon = load_icon(encoded.get_ref()).unwrap();
    assert_eq!(icon.width, 3);
    assert_eq!(icon.height, 2);
    let mut expected: Vec<u8> = Vec::new();
    for i in 0..6u8 {
        expected.extend([i, 10 * i, 200, 255]);
    }
    assert_eq!(icon.rgba, expected);
}

#[test]
fn opacity_is_kept() {
    let image = image::RgbaImage::from_raw(1, 1, vec![1, 2, 3, 4]).unwrap();
    let mut encoded = std::io::Cursor::new(Vec::new());
    image.write_to(&mut encoded, image::ImageOutputFormat::Png).unwrap();
    let icon = load_icon(encoded.get_ref()).unwrap();
    assert_eq!(icon, IconData { rgba: vec![1, 2, 3, 4], width: 1, height: 1 });
}

#[test]
fn bytes_that_are_no_image_give_no_icon() {
    assert_eq!(load_icon(&[]), Err(IconError::NotAnImage));
    assert_eq!(load_icon(b"not an image"), Err(IconError::NotAnImage));
    assert_eq!(load_icon(b"\x89PNG\r\n\x1a\n"), Err(IconError::NotAnImage));
}

#[test]
fn pixels_make_an_icon() {
    let icon = icon_from_pixels(Some((vec![9; 8], 2, 1)));
    assert_eq!(icon, Ok(IconData { rgba: vec![9; 8], width: 2, height: 1 }));
    assert_eq!(icon_from_pixels(None), Err(IconError::NotAnImage));
}

#[test]
fn a_click_goes_down_and_up() {
    assert_eq!(click_events(), vec![InputEvent::LeftButtonDown, InputEvent::LeftButtonUp]);
}

#[test]
fn a_key_goes_down_and_up() {
    assert_eq!(key_press_events(0x43), vec![InputEvent::KeyDown(0x43), InputEvent::KeyUp(0x43)]);
    assert_eq!(key_press_events(0x1_0041), vec![InputEvent::KeyDown(0x41), InputEvent::KeyUp(0x41)]);
}

#[test]
fn a_click_is_sent_when_both_events_were() {
    assert!(both_events_sent(2));
    assert!(!both_events_sent(0));
    assert!(!both_events_sent(1));
    assert!(!both_events_sent(3));
}

#[test]
fn numbers_are_written_in_decimal() {
    for n in [0, 7, 9, 10, 42, 99, 100, 1000, 4294967295, u64::MAX] {
        assert_eq!(decimal_string(n), n.to_string());
    }
    assert_eq!(with_number("n=", 5), "n=5");
    assert_eq!(around_number("<", 50, ">"), "<50>");
    assert_eq!(join("a", "b"), "ab");
}
