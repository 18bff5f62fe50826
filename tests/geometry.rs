use viuer::{find_best_fit, fit_dimensions, resize, Image};

const TERM: (u16, u16) = (80, 24);

fn best_fit_large_test_image() -> Image {
    Image::new(600, 500)
}

fn best_fit_small_test_image() -> Image {
    Image::new(40, 25)
}

fn resize_get_large_test_image() -> Image {
    Image::new(1000, 800)
}

fn resize_get_small_test_image() -> Image {
    Image::new(20, 10)
}

#[test]
fn test_resize_none() {
    let width = None;
    let height = None;

    let img = resize_get_large_test_image();
    let new_img = resize(&img, width, height, false, TERM).unwrap();
    assert_eq!(new_img.width, 60);
    assert_eq!(new_img.height, 46);

    let img = resize_get_small_test_image();
    let new_img = resize(&img, width, height, false, TERM).unwrap();
    assert_eq!(new_img.width, 20);
    assert_eq!(new_img.height, 10);
}

#[test]
fn test_resize_some_none() {
    let width = Some(100);
    let height = None;

    let img = resize_get_large_test_image();
    let new_img = resize(&img, width, height, false, TERM).unwrap();
    assert_eq!(new_img.width, 100);
    assert_eq!(new_img.height, 80);

    let img = resize_get_small_test_image();
    let new_img = resize(&img, width, height, false, TERM).unwrap();
    assert_eq!(new_img.width, 20);
    assert_eq!(new_img.height, 10);
}

#[test]
fn test_resize_none_some() {
    let width = None;
    let mut height = Some(90);

    let img = resize_get_large_test_image();
    let new_img = resize(&img, width, height, false, TERM).unwrap();
    assert_eq!(new_img.width, 225);
    assert_eq!(new_img.height, 180);

    height = Some(4);
    let img = resize_get_small_test_image();
    let new_img = resize(&img, width, height, false, TERM).unwrap();
    assert_eq!(new_img.width, 16);
    assert_eq!(new_img.height, 8);
}

#[test]
fn test_resize_some_some() {
    let width = Some(15);
    let height = Some(9);

    let img = resize_get_large_test_image();
    let new_img = resize(&img, width, height, false, TERM).unwrap();
    assert_eq!(new_img.width, 15);
    assert_eq!(new_img.height, 18);

    let img = resize_get_small_test_image();
    let new_img = resize(&img, width, height, false, TERM).unwrap();
    assert_eq!(new_img.width, 15);
    assert_eq!(new_img.height, 18);
}

#[test]
fn find_best_fit_none() {
    let width = None;
    let height = None;

    let img = best_fit_large_test_image();
    let (w, h) = find_best_fit(&img, width, height, false, TERM);
    assert_eq!(w, 57);
    assert_eq!(h, 23);

    let img = best_fit_small_test_image();
    let (w, h) = find_best_fit(&img, width, height, false, TERM);
    assert_eq!(w, 40);
    assert_eq!(h, 12);

    let img = Image::new(160, 80);
    let (w, h) = find_best_fit(&img, width, height, false, TERM);
    assert_eq!(w, 80);
    assert_eq!(h, 20);
}

#[test]
fn find_best_fit_some_none() {
    let width = Some(100);
    let height = None;

    let img = best_fit_large_test_image();
    let (w, h) = find_best_fit(&img, width, height, false, TERM);
    assert_eq!(w, 100);
    assert_eq!(h, 41);

    let img = best_fit_small_test_image();
    let (w, h) = find_best_fit(&img, width, height, false, TERM);
    assert_eq!(w, 40);
    assert_eq!(h, 12);

    let width = Some(6);
    let (w, h) = find_best_fit(&img, width, height, false, TERM);
    assert_eq!(w, 6);
    assert_eq!(h, 1);

    let width = Some(3);
    let (w, h) = find_best_fit(&img, width, height, false, TERM);
    assert_eq!(w, 3);
    assert_eq!(h, 1);
}

#[test]
fn find_best_fit_none_some() {
    let width = None;
    let height = Some(90);

    let img = best_fit_large_test_image();
    let (w, h) = find_best_fit(&img, width, height, false, TERM);
    assert_eq!(w, 216);
    assert_eq!(h, 90);

    let height = Some(4);
    let img = best_fit_small_test_image();
    let (w, h) = find_best_fit(&img, width, height, false, TERM);
    assert_eq!(w, 12);
    assert_eq!(h, 4);
}

#[test]
fn find_best_fit_some_some() {
    let width = Some(15);
    let height = Some(9);

    let img = best_fit_large_test_image();
    let (w, h) = find_best_fit(&img, width, height, false, TERM);
    assert_eq!(w, 15);
    assert_eq!(h, 9);

    let img = best_fit_small_test_image();
    let (w, h) = find_best_fit(&img, width, height, false, TERM);
    assert_eq!(w, 15);
    assert_eq!(h, 9);
}

#[test]
fn test_fit_dimensions() {
    // ratio 1:1
    assert_eq!((40, 20), fit_dimensions(100, 100, 40, 50));
    assert_eq!((20, 10), fit_dimensions(100, 100, 40, 10));
    // ratio 3:2
    assert_eq!((30, 10), fit_dimensions(240, 160, 30, 100));
    // ratio 5:7
    assert_eq!((200, 140), fit_dimensions(300, 420, 320, 140));
}

#[test]
fn test_fit_smaller_than_bounds() {
    assert_eq!((4, 1), fit_dimensions(4, 3, 80, 24));
    assert_eq!((4, 1), fit_dimensions(4, 1, 80, 24));
}

#[test]
fn test_fit_equal_to_bounds() {
    assert_eq!((80, 12), fit_dimensions(80, 24, 80, 24));
}

#[test]
fn fit_never_returns_an_empty_axis() {
    // a one pixel wide, very tall image would scale to zero columns
    assert_eq!((1, 24), fit_dimensions(1, 1000, 80, 24));
    assert_eq!((1, 1), fit_dimensions(0, 0, 80, 24));
    assert_eq!((1, 1), fit_dimensions(5, 5, 0, 0));
}

#[test]
fn fit_keeps_proportions_within_one_cell() {
    for &(w, h, bw, bh) in &[(600u32, 500u32, 80u32, 24u32), (1000, 800, 100, 800), (7, 1000, 3, 5)]
    {
        let (cw, ch) = fit_dimensions(w, h, bw, bh);
        let diff = (cw as i64) * (h as i64) - 2 * (ch as i64) * (w as i64);
        assert!(diff.abs() <= h as i64 + 2 * w as i64);
        assert!(cw <= bw && ch <= bh);
    }
}

#[test]
fn fit_does_not_upscale_and_is_idempotent() {
    assert_eq!((10, 3), fit_dimensions(10, 7, 80, 24));
    let (cw, ch) = fit_dimensions(600, 500, 80, 24);
    assert_eq!((cw, ch), fit_dimensions(cw, 2 * ch, 80, 24));
}

#[test]
fn exact_fit_ignores_the_image_ratio() {
    let img = Image::new(1000, 10);
    assert_eq!((7, 33), find_best_fit(&img, Some(7), Some(33), false, TERM));
    // asked to keep the ratio, the image is fitted into the box instead
    assert_eq!((7, 1), find_best_fit(&img, Some(7), Some(33), true, TERM));
}

#[test]
fn full_terminal_height_leaves_a_row_free() {
    let img = Image::new(10, 100);
    assert_eq!((4, 23), find_best_fit(&img, None, None, false, TERM));
}

#[test]
fn resize_refuses_sizes_too_large() {
    let img = Image::new(2, 2);
    assert!(resize(&img, Some(4), Some(u32::MAX), false, TERM).is_err());
}

#[test]
fn resize_resamples_pixels() {
    let mut img = Image::new(2, 2);
    for y in 0..2 {
        for x in 0..2 {
            img.put_pixel(x, y, [200, 100, 50, 255]);
        }
    }
    let out = resize(&img, Some(1), Some(1), false, TERM).unwrap();
    assert_eq!((out.width, out.height), (1, 2));
    assert_eq!(out.get_pixel(0, 0), [200, 100, 50, 255]);
}
