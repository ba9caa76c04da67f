//! One-bit-per-pixel images for the display: rows of bytes, most
//! significant bit leftmost, a set bit lit.

use vstd::prelude::*;

verus! {

/// The bit of a byte that stands for column `k` (0..8) of the byte, leftmost first.
pub open spec fn column_mask(k: int) -> u8 {
    0x80u8 >> (k as u8)
}

/// Whether pixel (`x`, `y`) is set in an image with `bytes_per_row` bytes per row.
pub open spec fn pixel(data: Seq<u8>, bytes_per_row: int, x: int, y: int) -> bool {
    data[y * bytes_per_row + x / 8] & column_mask(x % 8) != 0
}

proof fn lemma_set_column(a: u8, k: u8, j: u8)
    requires
        k < 8,
        j < 8,
    ensures
        ((a | (0x80u8 >> k)) & (0x80u8 >> j) != 0) == ((a & (0x80u8 >> j) != 0) || j == k),
{
    assert(k < 8 && j < 8 ==> (((a | (0x80u8 >> k)) & (0x80u8 >> j) != 0) == ((a & (0x80u8 >> j)
        != 0) || j == k))) by (bit_vector);
}

proof fn lemma_zero_byte(j: u8)
    ensures
        0u8 & (0x80u8 >> j) == 0,
{
    assert(0u8 & (0x80u8 >> j) == 0) by (bit_vector);
}

/// The logo, 21 by 3 pixels in 3 bytes per row.
pub const SRC_WIDTH: usize = 21;
pub const SRC_HEIGHT: usize = 3;
pub const SRC_BYTES_PER_ROW: usize = 3;
/// Each logo pixel becomes a square of this many display pixels.
pub const SCALE: usize = 5;
pub const DST_WIDTH: usize = 105;
pub const DST_HEIGHT: usize = 15;
pub const BYTES_PER_ROW: usize = 14;
pub const TOTAL_BYTES: usize = 210;

/// Whether the scaling has reached display pixel (`px`, `py`) when it is at
/// logo pixel (`x`, `y`) and offset (`dx`, `dy`) within its square: rows of
/// squares go top to bottom, squares left to right, and inside a square
/// rows top to bottom and pixels left to right.
pub open spec fn reached(px: int, py: int, y: int, x: int, dy: int, dx: int) -> bool {
    let by = py / 5;
    let bx = px / 5;
    let ry = py % 5;
    let rx = px % 5;
    by < y || (by == y && (bx < x || (bx == x && (ry < dy || (ry == dy && rx < dx)))))
}

/// What display pixel (`px`, `py`) holds once the scaling reached the given point.
pub open spec fn scaled_so_far(src: Seq<u8>, px: int, py: int, y: int, x: int, dy: int, dx: int) -> bool {
    px < 105 && pixel(src, 3, px / 5, py / 5) && reached(px, py, y, x, dy, dx)
}

/// Scales the 21 by 3 logo up five times into a 105 by 15 image of 14 bytes
/// per row; the unused bits at the end of each row stay clear.
pub fn scale_logo(src: &[u8]) -> (dst: [u8; TOTAL_BYTES])
    requires
        src@.len() >= 9,
    ensures
        forall|px: int, py: int|
            0 <= px < 112 && 0 <= py < 15 ==> #[trigger] pixel(dst@, 14, px, py) == (px < 105
                && pixel(src@, 3, px / 5, py / 5)),
{
    let mut dst = [0u8; TOTAL_BYTES];
    assert forall|px: int, py: int| 0 <= px < 112 && 0 <= py < 15 implies #[trigger] pixel(
        dst@,
        14,
        px,
        py,
    ) == scaled_so_far(src@, px, py, 0, 0, 0, 0) by {
        lemma_zero_byte((px % 8) as u8);
    }
    for y in 0..SRC_HEIGHT
        invariant
            src@.len() >= 9,
            dst@.len() == 210,
            forall|px: int, py: int|
                0 <= px < 112 && 0 <= py < 15 ==> #[trigger] pixel(dst@, 14, px, py)
                    == scaled_so_far(src@, px, py, y as int, 0, 0, 0),
    {
        for x in 0..SRC_WIDTH
            invariant
                y < 3,
                src@.len() >= 9,
                dst@.len() == 210,
                forall|px: int, py: int|
                    0 <= px < 112 && 0 <= py < 15 ==> #[trigger] pixel(dst@, 14, px, py)
                        == scaled_so_far(src@, px, py, y as int, x as int, 0, 0),
        {
            let src_byte_idx = y * 3 + (x / 8);
            let src_bit_mask: u8 = 0x80u8 >> ((x % 8) as u8);
            if (src[src_byte_idx] & src_bit_mask) != 0 {
                for dy in 0..SCALE
                    invariant
                        y < 3,
                        x < 21,
                        src@.len() >= 9,
                        dst@.len() == 210,
                        pixel(src@, 3, x as int, y as int),
                        forall|px: int, py: int|
                            0 <= px < 112 && 0 <= py < 15 ==> #[trigger] pixel(dst@, 14, px, py)
                                == scaled_so_far(src@, px, py, y as int, x as int, dy as int, 0),
                {
                    for dx in 0..SCALE
                        invariant
                            y < 3,
                            x < 21,
                            dy < 5,
                            src@.len() >= 9,
                            dst@.len() == 210,
                            pixel(src@, 3, x as int, y as int),
                            forall|px: int, py: int|
                                0 <= px < 112 && 0 <= py < 15 ==> #[trigger] pixel(dst@, 14, px, py)
                                    == scaled_so_far(
                                    src@,
                                    px,
                                    py,
                                    y as int,
                                    x as int,
                                    dy as int,
                                    dx as int,
                                ),
                    {
                        let out_x = x * SCALE + dx;
                        let out_y = y * SCALE + dy;
                        let out_byte_idx = out_y * BYTES_PER_ROW + (out_x / 8);
                        let out_bit_mask: u8 = 0x80u8 >> ((out_x % 8) as u8);
                        let ghost before = dst@;
                        dst[out_byte_idx] = dst[out_byte_idx] | out_bit_mask;
                        assert forall|px: int, py: int|
                            0 <= px < 112 && 0 <= py < 15 implies #[trigger] pixel(
                            dst@,
                            14,
                            px,
                            py,
                        ) == scaled_so_far(
                            src@,
                            px,
                            py,
                            y as int,
                            x as int,
                            dy as int,
                            dx + 1,
                        ) by {
                            let i = py * 14 + px / 8;
                            assert(pixel(before, 14, px, py) == scaled_so_far(
                                src@,
                                px,
                                py,
                                y as int,
                                x as int,
                                dy as int,
                                dx as int,
                            ));
                            if i == out_byte_idx {
                                assert(py == out_y && px / 8 == out_x / 8);
                                lemma_set_column(
                                    before[i],
                                    (out_x % 8) as u8,
                                    (px % 8) as u8,
                                );
                            } else {
                                assert(dst@[i] == before[i]);
                                assert(px != out_x || py != out_y);
                            }
                        }
                    }
                }
            }
        }
    }
    dst
}


/// The logo: "MIZET" in 21 by 3 pixels.
pub open spec fn logo_bytes() -> Seq<u8> {
    seq![
        0b11111010u8, 0b11100011u8, 0b10010000u8,
        0b10101000u8, 0b00100011u8, 0b00111000u8,
        0b10101010u8, 0b00111011u8, 0b10010000u8,
    ]
}

pub fn logo_data() -> (d: [u8; 9])
    ensures
        d@ == logo_bytes(),
{
    let d: [u8; 9] = [
        0b11111010, 0b11100011, 0b10010000,
        0b10101000, 0b00100011, 0b00111000,
        0b10101010, 0b00111011, 0b10010000,
    ];
    assert(d@ =~= logo_bytes());
    d
}

/// The start-up image: the logo scaled five times, 105 by 15 pixels in 14
/// bytes per row.
pub fn logo_image() -> (img: [u8; TOTAL_BYTES])
    ensures
        forall|px: int, py: int|
            0 <= px < 112 && 0 <= py < 15 ==> #[trigger] pixel(img@, 14, px, py) == (px < 105
                && pixel(logo_bytes(), 3, px / 5, py / 5)),
{
    let src = logo_data();
    scale_logo(src.as_slice())
}

/// The byte with its bits in reverse order: bit 0 becomes bit 7, bit 1 bit 6, and so on.
pub open spec fn reversed_bits(b: u8) -> u8 {
    ((b & 0x01u8) << 7u8) | ((b & 0x02u8) << 5u8) | ((b & 0x04u8) << 3u8) | ((b & 0x08u8) << 1u8)
        | ((b & 0x10u8) >> 1u8) | ((b & 0x20u8) >> 3u8) | ((b & 0x40u8) >> 5u8) | ((b & 0x80u8)
        >> 7u8)
}

/// Calls `u8::reverse_bits`. Trusted: the result is the byte with the order
/// of its bits reversed, as std documents.
#[verifier::external_body]
fn reverse_bits(b: u8) -> (r: u8)
    ensures
        r == reversed_bits(b),
{
    b.reverse_bits()
}

/// Side length of the square arrow images, in pixels and in bytes.
pub const IMAGE_DIM: usize = 6;

/// `data` upside down, padded with empty rows to six.
pub open spec fn flipped_v(data: Seq<u8>) -> Seq<u8> {
    Seq::new(6, |i: int| if i < data.len() { data[data.len() - 1 - i] } else { 0u8 })
}

/// Each row of `data` mirrored within its six leftmost pixels, padded with empty rows to six.
pub open spec fn flipped_h(data: Seq<u8>) -> Seq<u8> {
    Seq::new(6, |i: int| if i < data.len() { (reversed_bits(data[i]) << 2u8) as u8 } else { 0u8 })
}

/// `data` with every pixel inverted, padded with empty rows to six.
pub open spec fn inverted(data: Seq<u8>) -> Seq<u8> {
    Seq::new(6, |i: int| if i < data.len() { !data[i] } else { 0u8 })
}

pub fn flip_v_image_data(data: &[u8]) -> (flipped: [u8; IMAGE_DIM])
    requires
        data@.len() <= IMAGE_DIM,
    ensures
        flipped@ == flipped_v(data@),
{
    let mut flipped_data = [0u8; IMAGE_DIM];
    let mut i: usize = 0;
    while i < data.len()
        invariant
            data@.len() <= 6,
            i <= data@.len(),
            flipped_data@.len() == 6,
            forall|j: int|
                0 <= j < 6 ==> #[trigger] flipped_data@[j] == if data@.len() - i <= j < data@.len() {
                    data@[data@.len() - 1 - j]
                } else {
                    0u8
                },
        decreases data@.len() - i,
    {
        flipped_data[data.len() - 1 - i] = data[i];
        i = i + 1;
    }
    assert(flipped_data@ =~= flipped_v(data@));
    flipped_data
}

pub fn flip_h_image_data(data: &[u8]) -> (flipped: [u8; IMAGE_DIM])
    requires
        data@.len() <= IMAGE_DIM,
    ensures
        flipped@ == flipped_h(data@),
{
    let mut flipped_data = [0u8; IMAGE_DIM];
    let mut i: usize = 0;
    while i < data.len()
        invariant
            data@.len() <= 6,
            i <= data@.len(),
            flipped_data@.len() == 6,
            forall|j: int|
                0 <= j < 6 ==> #[trigger] flipped_data@[j] == if j < i {
                    (reversed_bits(data@[j]) << 2u8) as u8
                } else {
                    0u8
                },
        decreases data@.len() - i,
    {
        flipped_data[i] = reverse_bits(data[i]) << 2;
        i = i + 1;
    }
    assert(flipped_data@ =~= flipped_h(data@));
    flipped_data
}

pub fn inv_image_data(data: &[u8]) -> (inv: [u8; IMAGE_DIM])
    requires
        data@.len() <= IMAGE_DIM,
    ensures
        inv@ == inverted(data@),
{
    let mut inv_data = [0u8; IMAGE_DIM];
    let mut i: usize = 0;
    while i < data.len()
        invariant
            data@.len() <= 6,
            i <= data@.len(),
            inv_data@.len() == 6,
            forall|j: int|
                0 <= j < 6 ==> #[trigger] inv_data@[j] == if j < i {
                    !data@[j]
                } else {
                    0u8
                },
        decreases data@.len() - i,
    {
        inv_data[i] = !data[i];
        i = i + 1;
    }
    assert(inv_data@ =~= inverted(data@));
    inv_data
}

/// Turning an image upside down twice gives it back.
pub proof fn law_flip_v_twice(data: Seq<u8>)
    requires
        data.len() == 6,
    ensures
        flipped_v(flipped_v(data)) == data,
{
    assert(flipped_v(flipped_v(data)) =~= data);
}

/// Mirroring twice gives back an image whose rows are at most six pixels wide.
pub proof fn law_flip_h_twice(data: Seq<u8>)
    requires
        data.len() == 6,
        forall|i: int| 0 <= i < 6 ==> #[trigger] data[i] & 0x03u8 == 0,
    ensures
        flipped_h(flipped_h(data)) == data,
{
    assert forall|i: int| 0 <= i < 6 implies #[trigger] flipped_h(flipped_h(data))[i] == data[i] by {
        let b = data[i];
        assert(b & 0x03u8 == 0 ==> ((reversed_bits(((reversed_bits(b) << 2u8) as u8)) << 2u8) as u8)
            == b) by (bit_vector);
    }
    assert(flipped_h(flipped_h(data)) =~= data);
}

/// Inverting twice gives an image back.
pub proof fn law_invert_twice(data: Seq<u8>)
    requires
        data.len() == 6,
    ensures
        inverted(inverted(data)) == data,
{
    assert forall|i: int| 0 <= i < 6 implies #[trigger] inverted(inverted(data))[i] == data[i] by {
        let b = data[i];
        assert(!(!b) == b) by (bit_vector);
    }
    assert(inverted(inverted(data)) =~= data);
}

/// The upward arrow, a six by six image.
pub open spec fn arrow_v_bytes() -> Seq<u8> {
    seq![0b00100000u8, 0b01110000u8, 0b10101000u8, 0b00100000u8, 0b00100000u8, 0b00100000u8]
}

/// The leftward arrow, a six by six image.
pub open spec fn arrow_h_bytes() -> Seq<u8> {
    seq![0b00100000u8, 0b01000000u8, 0b11111100u8, 0b01000000u8, 0b00100000u8, 0b00000000u8]
}

fn arrow_v_data() -> (d: [u8; IMAGE_DIM])
    ensures
        d@ == arrow_v_bytes(),
{
    let d: [u8; IMAGE_DIM] = [0b00100000, 0b01110000, 0b10101000, 0b00100000, 0b00100000, 0b00100000];
    assert(d@ =~= arrow_v_bytes());
    d
}

fn arrow_h_data() -> (d: [u8; IMAGE_DIM])
    ensures
        d@ == arrow_h_bytes(),
{
    let d: [u8; IMAGE_DIM] = [0b00100000, 0b01000000, 0b11111100, 0b01000000, 0b00100000, 0b00000000];
    assert(d@ =~= arrow_h_bytes());
    d
}

/// A direction an arrow on the display points to.
#[derive(Clone, Copy, PartialEq, Eq, Structural, Debug)]
pub enum ArrowDirection {
    Up,
    Down,
    Left,
    Right,
}

/// The arrow image for a direction: the upward and leftward arrows are drawn,
/// the others are their flips; a pressed arrow is drawn inverted.
pub open spec fn arrow_image_spec(direction: ArrowDirection, inverted_image: bool) -> Seq<u8> {
    let base = match direction {
        ArrowDirection::Up => arrow_v_bytes(),
        ArrowDirection::Down => flipped_v(arrow_v_bytes()),
        ArrowDirection::Left => arrow_h_bytes(),
        ArrowDirection::Right => flipped_h(arrow_h_bytes()),
    };
    if inverted_image {
        inverted(base)
    } else {
        base
    }
}

/// The six by six image of an arrow.
pub fn arrow_image(direction: ArrowDirection, is_pressed: bool) -> (img: [u8; IMAGE_DIM])
    ensures
        img@ == arrow_image_spec(direction, is_pressed),
{
    let v = arrow_v_data();
    let h = arrow_h_data();
    let arrow_data = match direction {
        ArrowDirection::Up => v,
        ArrowDirection::Down => flip_v_image_data(v.as_slice()),
        ArrowDirection::Left => h,
        ArrowDirection::Right => flip_h_image_data(h.as_slice()),
    };
    let inv_arrow_data = inv_image_data(arrow_data.as_slice());
    if is_pressed {
        inv_arrow_data
    } else {
        arrow_data
    }
}

} // verus!
