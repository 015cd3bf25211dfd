use dodge_rl::image::{channels, draw_circle, fill_background, set_pixel, PixelColor};

const BG: PixelColor = PixelColor { r: 30, g: 30, b: 40, gray: 31 };
const RED: PixelColor = PixelColor { r: 255, g: 50, b: 50, gray: 111 };

#[test]
fn background_fills_image_only() {
    let mut px = vec![7u8; 4 * 3 * 3 + 5];
    fill_background(&mut px, 4, 3, BG, false);
    for j in 0..12 {
        assert_eq!(&px[3 * j..3 * j + 3], &[30, 30, 40]);
    }
    assert_eq!(&px[36..], &[7, 7, 7, 7, 7]);
    let mut g = vec![0u8; 12];
    fill_background(&mut g, 4, 3, BG, true);
    assert!(g.iter().all(|&v| v == 31));
    assert_eq!(channels(true), 1);
    assert_eq!(channels(false), 3);
}

#[test]
fn set_pixel_skips_pixels_past_the_end() {
    let mut px = vec![0u8; 5];
    set_pixel(&mut px, 3, RED, false);
    assert_eq!(px, vec![0; 5]);
    set_pixel(&mut px, 2, RED, false);
    assert_eq!(px, vec![0, 0, 255, 50, 50]);
    set_pixel(&mut px, 4, RED, true);
    assert_eq!(px, vec![0, 0, 255, 50, 111]);
}

#[test]
fn circle_is_drawn_and_clipped() {
    let (w, h) = (8usize, 8usize);
    let mut px = vec![0u8; w * h];
    draw_circle(&mut px, w, h, 0, 0, 2, RED, true);
    for y in 0..h as i32 {
        for x in 0..w as i32 {
            let inside = x * x + y * y <= 4;
            let v = px[(y as usize) * w + x as usize];
            assert_eq!(v, if inside { 111 } else { 0 }, "pixel ({x}, {y})");
        }
    }
}

#[test]
fn circle_rgb_matches_disc() {
    let (w, h) = (10usize, 6usize);
    let mut px = vec![1u8; w * h * 3];
    draw_circle(&mut px, w, h, 4, 3, 3, RED, false);
    let mut painted = 0;
    for y in 0..h as i32 {
        for x in 0..w as i32 {
            let (dx, dy) = (x - 4, y - 3);
            let i = ((y as usize) * w + x as usize) * 3;
            if dx * dx + dy * dy <= 9 {
                assert_eq!(&px[i..i + 3], &[255, 50, 50]);
                painted += 1;
            } else {
                assert_eq!(&px[i..i + 3], &[1, 1, 1]);
            }
        }
    }
    assert!(painted > 20);
}

#[test]
fn circle_with_negative_radius_draws_nothing() {
    let mut px = vec![0u8; 16];
    draw_circle(&mut px, 4, 4, 1, 1, -1, RED, true);
    assert!(px.iter().all(|&v| v == 0));
    draw_circle(&mut px, 4, 4, 1, 1, 0, RED, true);
    assert_eq!(px[5], 111);
    assert_eq!(px.iter().filter(|&&v| v != 0).count(), 1);
}
