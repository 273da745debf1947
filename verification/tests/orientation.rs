use pi_photo_frame::photo::orientation::rotate_photo;
use pi_photo_frame::photo::picture::Turn;
use pi_photo_frame::photo::pixels::{Colorspace, PhotoData};

/// A photo without alpha whose pixel in column x, row y holds the bytes
/// (10 * y + x, 100 + 10 * y + x, 200 + 10 * y + x), with `padding` unused
/// bytes after each row but the last.
fn sample(width: i32, height: i32, padding: i32) -> PhotoData {
    let rowstride = 3 * width + padding;
    let mut bytes = Vec::new();
    for y in 0..height {
        for x in 0..width {
            let v = (10 * y + x) as u8;
            bytes.push(v);
            bytes.push(100 + v);
            bytes.push(200 + v);
        }
        if y + 1 < height {
            for _ in 0..padding {
                bytes.push(255);
            }
        }
    }
    PhotoData { bytes, colorspace: Colorspace::Rgb, has_alpha: false, width, height, rowstride }
}

/// The first byte of each pixel, row by row.
fn grid(photo: &PhotoData) -> Vec<Vec<u8>> {
    let channels = if photo.has_alpha { 4 } else { 3 };
    (0..photo.height)
        .map(|y| {
            (0..photo.width)
                .map(|x| photo.bytes[(y * photo.rowstride + x * channels) as usize])
                .collect()
        })
        .collect()
}

#[test]
fn codes_zero_and_one_change_nothing() {
    for code in [0u32, 1] {
        let out = rotate_photo(sample(3, 2, 5), code);
        let same = sample(3, 2, 5);
        assert_eq!(out.bytes, same.bytes);
        assert_eq!((out.width, out.height, out.rowstride), (3, 2, 14));
    }
}

#[test]
fn codes_above_eight_change_nothing() {
    let out = rotate_photo(sample(3, 2, 0), 9);
    assert_eq!(out.bytes, sample(3, 2, 0).bytes);
    let out = rotate_photo(sample(3, 2, 0), u32::MAX);
    assert_eq!(out.bytes, sample(3, 2, 0).bytes);
}

#[test]
fn each_code_moves_the_pixels_as_the_table_says() {
    // Source, 3 wide and 2 high:
    //   0  1  2
    //  10 11 12
    let expected: [(u32, Vec<Vec<u8>>); 7] = [
        (2, vec![vec![2, 1, 0], vec![12, 11, 10]]),
        (3, vec![vec![12, 11, 10], vec![2, 1, 0]]),
        (4, vec![vec![10, 11, 12], vec![0, 1, 2]]),
        (5, vec![vec![12, 2], vec![11, 1], vec![10, 0]]),
        (6, vec![vec![10, 0], vec![11, 1], vec![12, 2]]),
        (7, vec![vec![0, 10], vec![1, 11], vec![2, 12]]),
        (8, vec![vec![2, 12], vec![1, 11], vec![0, 10]]),
    ];
    for (code, want) in expected {
        let out = rotate_photo(sample(3, 2, 4), code);
        assert_eq!(grid(&out), want, "code {}", code);
        assert!(out.width > 0 && out.height > 0);
        assert_eq!(out.rowstride, 3 * out.width);
        assert_eq!(out.bytes.len() as i32, out.rowstride * out.height);
    }
}

#[test]
fn a_quarter_turn_to_the_right_swaps_the_sides() {
    let out = rotate_photo(sample(3, 2, 0), 6);
    assert_eq!((out.width, out.height), (2, 3));
    // The pixel that was at the bottom left is now at the top left, with all
    // its channels.
    assert_eq!(&out.bytes[0..3], &[10, 110, 210]);
}

#[test]
fn alpha_travels_with_its_pixel() {
    let photo = PhotoData {
        bytes: vec![1, 2, 3, 4, 5, 6, 7, 8],
        colorspace: Colorspace::Rgb,
        has_alpha: true,
        width: 2,
        height: 1,
        rowstride: 8,
    };
    let out = rotate_photo(photo, 2);
    assert_eq!(out.bytes, vec![5, 6, 7, 8, 1, 2, 3, 4]);
    assert!(out.has_alpha);
}

#[test]
fn paired_codes_give_the_photo_back() {
    for (code, pair) in [(2u32, 2u32), (3, 3), (4, 4), (6, 8), (8, 6)] {
        let there = rotate_photo(sample(4, 3, 0), code);
        let back = rotate_photo(there, pair);
        assert_eq!(back.bytes, sample(4, 3, 0).bytes, "codes {} and {}", code, pair);
        assert_eq!((back.width, back.height), (4, 3));
    }
}

#[test]
fn codes_five_and_seven_make_a_half_turn_together() {
    let there = rotate_photo(sample(4, 3, 0), 5);
    let back = rotate_photo(there, 7);
    assert_eq!(back.bytes, rotate_photo(sample(4, 3, 0), 3).bytes);
    assert_ne!(back.bytes, sample(4, 3, 0).bytes);
    // On a photo that a half turn leaves unchanged the pair gives it back.
    let one = rotate_photo(rotate_photo(sample(1, 1, 0), 5), 7);
    assert_eq!(one.bytes, sample(1, 1, 0).bytes);
}

#[test]
fn codes_five_and_seven_undo_themselves() {
    for code in [5u32, 7] {
        let back = rotate_photo(rotate_photo(sample(4, 3, 0), code), code);
        assert_eq!(back.bytes, sample(4, 3, 0).bytes);
    }
}

#[test]
fn a_photo_that_is_not_well_formed_comes_back_unchanged() {
    // The buffer is one byte short of the last row.
    let short = PhotoData {
        bytes: vec![0; 17],
        colorspace: Colorspace::Rgb,
        has_alpha: false,
        width: 3,
        height: 2,
        rowstride: 9,
    };
    assert!(!short.is_well_formed());
    let out = rotate_photo(short, 6);
    assert_eq!((out.width, out.height, out.bytes.len()), (3, 2, 17));

    let empty = PhotoData {
        bytes: Vec::new(),
        colorspace: Colorspace::Rgb,
        has_alpha: false,
        width: 0,
        height: -1,
        rowstride: 0,
    };
    assert!(!empty.is_displayable());
    let out = rotate_photo(empty, 3);
    assert_eq!((out.width, out.height), (0, -1));
    assert!(!out.is_displayable());
}

#[test]
fn a_single_move_can_be_made_directly() {
    let out = sample(3, 2, 1).turn(Turn::Counterclockwise).unwrap();
    assert_eq!(grid(&out), vec![vec![2, 12], vec![1, 11], vec![0, 10]]);
    assert!(sample(3, 2, 1).is_well_formed());
}
