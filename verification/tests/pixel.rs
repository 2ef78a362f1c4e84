use apa_spi::pixel::{BRIGHTNESS_CODE_MASK, DEFAULT_BRIGHTNESS, MAX_BRIGHTNESS_CODE};
use apa_spi::{Pixel, LED_STRIP_SPI_FRAME_SK9822_LED_MSB3};

fn code_of(percent: u8) -> u8 {
    Pixel::new(0, 0, 0, percent).as_bytes()[0] & BRIGHTNESS_CODE_MASK
}

#[test]
fn brightness_codes_follow_the_table() {
    assert_eq!(code_of(0), 0);
    assert_eq!(code_of(1), 1);
    assert_eq!(code_of(8), 1);
    assert_eq!(code_of(9), 0);
    assert_eq!(code_of(50), 14);
    assert_eq!(code_of(99), 30);
    assert_eq!(code_of(100), 31);
    assert_eq!(code_of(255), 31);
}

#[test]
fn brightness_steps_between_nine_and_ninety_nine() {
    assert_eq!(code_of(10), 1);
    assert_eq!(code_of(12), 1);
    assert_eq!(code_of(13), 2);
    assert_eq!(code_of(97), 30);
    assert_eq!(code_of(98), 30);
}

#[test]
fn brightness_above_a_hundred_saturates() {
    assert_eq!(code_of(101), MAX_BRIGHTNESS_CODE);
    assert_eq!(code_of(150), MAX_BRIGHTNESS_CODE);
    assert_eq!(code_of(200), MAX_BRIGHTNESS_CODE);
}

#[test]
fn every_brightness_keeps_marker_and_range() {
    let mut percent: u8 = 0;
    loop {
        let header = Pixel::new(1, 2, 3, percent).as_bytes()[0];
        assert_eq!(
            header & LED_STRIP_SPI_FRAME_SK9822_LED_MSB3,
            LED_STRIP_SPI_FRAME_SK9822_LED_MSB3
        );
        assert!(header & BRIGHTNESS_CODE_MASK <= MAX_BRIGHTNESS_CODE);
        assert!(header >= 0xE0);
        if percent == 255 {
            break;
        }
        percent += 1;
    }
}

#[test]
fn brightness_never_falls_but_at_nine() {
    let mut percent: u8 = 0;
    while percent < 255 {
        let here = code_of(percent);
        let above = code_of(percent + 1);
        if percent == 8 {
            assert_eq!(here, 1);
            assert_eq!(above, 0);
        } else {
            assert!(here <= above);
        }
        percent += 1;
    }
}

#[test]
fn cell_is_header_blue_green_red() {
    let pixel = Pixel::new(0x11, 0x22, 0x33, 50);
    assert_eq!(pixel.as_bytes(), &[0xEE, 0x33, 0x22, 0x11]);
    assert_eq!(pixel.as_bytes().len(), 4);
}

#[test]
fn cell_of_full_red_at_half_brightness() {
    let pixel = Pixel::new(255, 0, 0, 50);
    assert_eq!(pixel.as_bytes(), &[0xEE, 0x00, 0x00, 0xFF]);
}

#[test]
fn default_pixel_is_black_at_the_dimmest_step() {
    assert_eq!(DEFAULT_BRIGHTNESS, 10);
    let pixel = Pixel::default();
    assert_eq!(pixel.as_bytes(), &[0xE1, 0x00, 0x00, 0x00]);
    assert_eq!(pixel.as_bytes(), Pixel::new(0, 0, 0, DEFAULT_BRIGHTNESS).as_bytes());
}

#[test]
fn pixel_from_a_colour_takes_the_default_brightness() {
    let colour = rgb::RGB8 { r: 10, g: 20, b: 30 };
    let pixel = Pixel::from(colour);
    assert_eq!(pixel.as_bytes(), &[0xE1, 30, 20, 10]);
    let same: Pixel = colour.into();
    assert_eq!(same.as_bytes(), pixel.as_bytes());
}

#[test]
fn pixel_copies_keep_their_bytes() {
    let pixel = Pixel::new(9, 8, 7, 100);
    let copy = pixel;
    assert_eq!(copy.as_bytes(), pixel.as_bytes());
    assert_eq!(copy.as_bytes(), &[0xFF, 7, 8, 9]);
}
