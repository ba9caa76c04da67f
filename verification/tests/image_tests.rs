use mizet_fw::image::{
    arrow_image, flip_h_image_data, flip_v_image_data, inv_image_data, logo_data, logo_image,
    scale_logo, ArrowDirection,
};

fn pixel(data: &[u8], bytes_per_row: usize, x: usize, y: usize) -> bool {
    data[y * bytes_per_row + x / 8] & (0x80 >> (x % 8)) != 0
}

#[test]
fn logo_is_scaled_five_times() {
    let src = logo_data();
    let img = logo_image();
    assert_eq!(img.len(), 210);
    for y in 0..15 {
        for x in 0..112 {
            let expected = x < 105 && pixel(&src, 3, x / 5, y / 5);
            assert_eq!(pixel(&img, 14, x, y), expected, "pixel {} {}", x, y);
        }
    }
    // the top-left logo pixel is lit, so is its whole 5 by 5 square
    assert_eq!(img[0], 0xff);
    assert_eq!(img[14 * 4], 0xff);
}

#[test]
fn scaling_an_empty_and_a_full_logo() {
    let empty = scale_logo(&[0u8; 9]);
    assert!(empty.iter().all(|&b| b == 0));
    let full = scale_logo(&[0xffu8; 9]);
    for row in 0..15 {
        for b in 0..13 {
            assert_eq!(full[row * 14 + b], 0xff);
        }
        // 105 = 13 * 8 + 1: one pixel of the last byte, the rest stays clear
        assert_eq!(full[row * 14 + 13], 0x80);
    }
}

#[test]
fn arrow_images() {
    let up = [0b00100000, 0b01110000, 0b10101000, 0b00100000, 0b00100000, 0b00100000];
    let left = [0b00100000, 0b01000000, 0b11111100, 0b01000000, 0b00100000, 0b00000000];
    assert_eq!(arrow_image(ArrowDirection::Up, false), up);
    assert_eq!(arrow_image(ArrowDirection::Left, false), left);
    assert_eq!(
        arrow_image(ArrowDirection::Down, false),
        [0b00100000, 0b00100000, 0b00100000, 0b10101000, 0b01110000, 0b00100000]
    );
    assert_eq!(
        arrow_image(ArrowDirection::Right, false),
        [0b00010000, 0b00001000, 0b11111100, 0b00001000, 0b00010000, 0b00000000]
    );
    let inv_up = arrow_image(ArrowDirection::Up, true);
    for i in 0..6 {
        assert_eq!(inv_up[i], !up[i]);
    }
}

#[test]
fn flips_and_inversion_undo_themselves() {
    let data = [0b00100000, 0b01110000, 0b10101000, 0b00100000, 0b00000100, 0b11111100];
    assert_eq!(flip_v_image_data(&flip_v_image_data(&data)), data);
    assert_eq!(flip_h_image_data(&flip_h_image_data(&data)), data);
    assert_eq!(inv_image_data(&inv_image_data(&data)), data);
}

#[test]
fn short_images_are_padded() {
    assert_eq!(flip_v_image_data(&[1, 2, 3]), [3, 2, 1, 0, 0, 0]);
    assert_eq!(flip_h_image_data(&[0b10000000]), [0b00000100, 0, 0, 0, 0, 0]);
    assert_eq!(inv_image_data(&[0x0f]), [0xf0, 0, 0, 0, 0, 0]);
    assert_eq!(flip_v_image_data(&[]), [0; 6]);
}
