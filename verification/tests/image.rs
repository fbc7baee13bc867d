use plotter::image::{ImageBuf, BACKGROUND};

#[test]
fn new_image_is_all_background() {
    let img = ImageBuf::new(3, 2);
    assert_eq!(img.as_slice(), &[BACKGROUND; 6]);
}

#[test]
fn new_image_with_no_columns_is_empty() {
    assert!(ImageBuf::new(0, 7).as_slice().is_empty());
    assert!(ImageBuf::new(7, 0).as_slice().is_empty());
}

#[test]
fn from_fn_gives_each_pixel_its_own_coordinates() {
    let img = ImageBuf::from_fn(4, 3, |x, y| (y as u32) * 100 + x as u32);
    assert_eq!(
        img.as_slice(),
        &[0, 1, 2, 3, 100, 101, 102, 103, 200, 201, 202, 203]
    );
}

#[test]
fn from_fn_on_a_large_image_fills_every_pixel() {
    let img = ImageBuf::from_fn(500, 400, |x, y| ((y as u32) << 16) | x as u32);
    let pixels = img.as_slice();
    assert_eq!(pixels.len(), 200_000);
    for (n, p) in pixels.iter().enumerate() {
        assert_eq!(*p, (((n / 500) as u32) << 16) | (n % 500) as u32);
    }
}

#[test]
fn resize_larger_pads_with_background() {
    let mut img = ImageBuf::from_fn(2, 2, |x, y| 10 * (y as u32) + x as u32 + 1);
    let big = img.resize(3, 3);
    assert_eq!(
        big.as_slice(),
        &[1, 2, BACKGROUND, 11, 12, BACKGROUND, BACKGROUND, BACKGROUND, BACKGROUND]
    );
    assert_eq!(img.as_slice(), &[1, 2, 11, 12]);
}

#[test]
fn resize_smaller_keeps_the_top_left_corner() {
    let mut img = ImageBuf::from_fn(3, 3, |x, y| 10 * (y as u32) + x as u32);
    let small = img.resize(2, 1);
    assert_eq!(small.as_slice(), &[0, 1]);
}

#[test]
fn resize_wider_but_shorter_mixes_both() {
    let mut img = ImageBuf::from_fn(2, 3, |x, y| 10 * (y as u32) + x as u32);
    let other = img.resize(4, 2);
    assert_eq!(
        other.as_slice(),
        &[0, 1, BACKGROUND, BACKGROUND, 10, 11, BACKGROUND, BACKGROUND]
    );
}

#[test]
fn resize_to_nothing_is_empty() {
    let mut img = ImageBuf::new(5, 5);
    assert!(img.resize(0, 0).as_slice().is_empty());
}

#[test]
fn from_fn_reaches_the_last_column_and_row() {
    let img = ImageBuf::from_fn(u16::MAX, 2, |x, y| ((y as u32) << 16) | x as u32);
    let pixels = img.as_slice();
    assert_eq!(pixels.len(), 2 * 65535);
    assert_eq!(pixels[0], 0);
    assert_eq!(pixels[65534], 65534);
    assert_eq!(pixels[65535], 1 << 16);
    assert_eq!(pixels[2 * 65535 - 1], (1 << 16) | 65534);
    let img = ImageBuf::from_fn(2, u16::MAX, |x, y| ((y as u32) << 16) | x as u32);
    assert_eq!(img.as_slice()[2 * 65535 - 1], (65534 << 16) | 1);
}

#[test]
fn resize_to_the_same_size_copies() {
    let mut img = ImageBuf::from_fn(7, 5, |x, y| 1000 * (y as u32) + x as u32);
    let copy = img.resize(7, 5);
    assert_eq!(copy.as_slice(), img.as_slice());
}
