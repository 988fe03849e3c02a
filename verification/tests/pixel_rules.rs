use alphafix::composite::composite;
use alphafix::error::Error;
use alphafix::geometry::{inset_frame, is_warp_degenerate, Point, Quad};
use alphafix::mask::{contrast, threshold};
use alphafix::policy::CompositingPolicy;
use alphafix::raster::{Pixel, RasterImage};
use alphafix::task::{format_named_by, File};

fn rgba(r: u8, g: u8, b: u8, a: u8) -> Pixel {
    Pixel { r, g, b, a }
}

fn row(pixels: Vec<Pixel>) -> RasterImage {
    RasterImage::from_pixels(pixels.len() as u32, 1, pixels).unwrap()
}

fn alphas(img: &RasterImage) -> Vec<u8> {
    (0..img.pixel_count()).map(|i| img.get(i).a).collect()
}

#[test]
fn threshold_cuts_at_128() {
    let mask = row(vec![
        rgba(1, 2, 3, 0),
        rgba(1, 2, 3, 1),
        rgba(1, 2, 3, 127),
        rgba(1, 2, 3, 128),
        rgba(1, 2, 3, 129),
        rgba(1, 2, 3, 254),
        rgba(1, 2, 3, 255),
    ]);
    let out = threshold(mask);
    assert_eq!(alphas(&out), vec![0, 0, 0, 255, 255, 255, 255]);
}

#[test]
fn threshold_keeps_colour_and_dimensions() {
    let mask = RasterImage::from_pixels(
        2,
        3,
        vec![
            rgba(10, 20, 30, 5),
            rgba(11, 21, 31, 200),
            rgba(12, 22, 32, 128),
            rgba(13, 23, 33, 127),
            rgba(14, 24, 34, 255),
            rgba(15, 25, 35, 0),
        ],
    )
    .unwrap();
    let out = threshold(mask);
    assert_eq!(out.width(), 2);
    assert_eq!(out.height(), 3);
    assert_eq!(
        out.into_pixels(),
        vec![
            rgba(10, 20, 30, 0),
            rgba(11, 21, 31, 255),
            rgba(12, 22, 32, 255),
            rgba(13, 23, 33, 0),
            rgba(14, 24, 34, 255),
            rgba(15, 25, 35, 0),
        ]
    );
}

#[test]
fn threshold_of_every_alpha_is_binary() {
    let pixels: Vec<Pixel> = (0..=255u8).map(|a| rgba(a, a, a, a)).collect();
    let out = threshold(RasterImage::from_pixels(16, 16, pixels).unwrap());
    for (i, p) in out.into_pixels().into_iter().enumerate() {
        assert_eq!(p.a, if i < 128 { 0 } else { 255 });
        assert_eq!(p.r as usize, i);
    }
}

#[test]
fn threshold_twice_is_threshold_once() {
    let pixels: Vec<Pixel> = (0..=255u8).map(|a| rgba(0, 0, 0, a)).collect();
    let once = threshold(RasterImage::from_pixels(256, 1, pixels).unwrap());
    let twice = threshold(once.clone());
    assert_eq!(once.to_raw(), twice.to_raw());
}

#[test]
fn contrast_doubles_the_distance_from_the_midpoint() {
    let mask = row(vec![
        rgba(0, 63, 64, 65),
        rgba(100, 127, 128, 129),
        rgba(160, 190, 191, 192),
        rgba(193, 254, 255, 128),
    ]);
    let out = contrast(mask);
    assert_eq!(
        out.into_pixels(),
        vec![
            rgba(0, 0, 0, 2),
            rgba(72, 126, 128, 130),
            rgba(192, 252, 254, 255),
            rgba(255, 255, 255, 128),
        ]
    );
}

#[test]
fn contrast_moves_no_alpha_across_the_cutoff() {
    let pixels: Vec<Pixel> = (0..=255u8).map(|a| rgba(7, 7, 7, a)).collect();
    let plain = threshold(RasterImage::from_pixels(256, 1, pixels.clone()).unwrap());
    let stretched = threshold(contrast(RasterImage::from_pixels(256, 1, pixels).unwrap()));
    assert_eq!(alphas(&plain), alphas(&stretched));
}

#[test]
fn simple_composite_takes_colour_from_picture_and_alpha_from_mask() {
    let picture = row(vec![rgba(1, 2, 3, 255), rgba(4, 5, 6, 0), rgba(7, 8, 9, 100), rgba(10, 11, 12, 250)]);
    let mask = row(vec![rgba(90, 91, 92, 0), rgba(93, 94, 95, 255), rgba(96, 97, 98, 100), rgba(99, 98, 97, 17)]);
    let out = composite(picture, &mask, CompositingPolicy::Simple);
    assert_eq!(out.width(), 4);
    assert_eq!(out.height(), 1);
    assert_eq!(
        out.into_pixels(),
        vec![rgba(1, 2, 3, 0), rgba(4, 5, 6, 255), rgba(7, 8, 9, 100), rgba(10, 11, 12, 17)]
    );
}

#[test]
fn guarded_composite_replaces_mostly_transparent_pixels() {
    let picture = row(vec![rgba(1, 2, 3, 0), rgba(4, 5, 6, 199), rgba(7, 8, 9, 100)]);
    let mask = row(vec![rgba(90, 91, 92, 255), rgba(93, 94, 95, 0), rgba(96, 97, 98, 100)]);
    let out = composite(picture, &mask, CompositingPolicy::Guarded);
    assert_eq!(
        out.into_pixels(),
        vec![rgba(90, 91, 92, 255), rgba(93, 94, 95, 0), rgba(96, 97, 98, 100)]
    );
}

#[test]
fn guarded_composite_raises_alpha_to_the_mask() {
    let picture = row(vec![rgba(1, 2, 3, 200), rgba(4, 5, 6, 254)]);
    let mask = row(vec![rgba(90, 91, 92, 201), rgba(93, 94, 95, 255)]);
    let out = composite(picture, &mask, CompositingPolicy::Guarded);
    assert_eq!(out.into_pixels(), vec![rgba(1, 2, 3, 201), rgba(4, 5, 6, 255)]);
}

#[test]
fn guarded_composite_keeps_pixels_at_least_as_opaque_as_the_mask() {
    let picture = row(vec![rgba(1, 2, 3, 200), rgba(4, 5, 6, 255), rgba(7, 8, 9, 230)]);
    let mask = row(vec![rgba(90, 91, 92, 200), rgba(93, 94, 95, 0), rgba(96, 97, 98, 229)]);
    let out = composite(picture.clone(), &mask, CompositingPolicy::Guarded);
    assert_eq!(out.to_raw(), picture.to_raw());
}

#[test]
fn guarded_composite_never_goes_below_the_lesser_alpha() {
    let levels: [u8; 8] = [0, 1, 127, 199, 200, 201, 254, 255];
    for &p in levels.iter() {
        for &m in levels.iter() {
            let picture = row(vec![rgba(1, 2, 3, p)]);
            let mask = row(vec![rgba(9, 8, 7, m)]);
            let out = composite(picture, &mask, CompositingPolicy::Guarded).get(0);
            assert!(out.a >= p.min(m));
            assert!(out.a >= m);
            if p >= 200 && p >= m {
                assert_eq!(out, rgba(1, 2, 3, p));
            }
        }
    }
}

#[test]
fn composite_of_empty_rasters_is_empty() {
    let picture = RasterImage::from_raw(0, 3, Vec::new()).unwrap();
    let mask = RasterImage::from_raw(0, 3, Vec::new()).unwrap();
    let out = composite(picture, &mask, CompositingPolicy::Guarded);
    assert_eq!((out.width(), out.height(), out.pixel_count()), (0, 3, 0));
}

#[test]
fn inset_frame_moves_corners_inwards() {
    assert_eq!(
        inset_frame(10, 6, 2),
        Quad {
            top_left: Point { x: 2, y: 2 },
            top_right: Point { x: 8, y: 2 },
            bottom_left: Point { x: 2, y: 4 },
            bottom_right: Point { x: 8, y: 4 },
        }
    );
}

#[test]
fn inset_frame_with_negative_inset_moves_corners_outwards() {
    assert_eq!(
        inset_frame(10, 6, -4),
        Quad {
            top_left: Point { x: -4, y: -4 },
            top_right: Point { x: 14, y: -4 },
            bottom_left: Point { x: -4, y: 10 },
            bottom_right: Point { x: 14, y: 10 },
        }
    );
}

#[test]
fn inset_frame_without_inset_is_the_raster() {
    assert_eq!(
        inset_frame(4294967295, 1, 0),
        Quad {
            top_left: Point { x: 0, y: 0 },
            top_right: Point { x: 4294967295, y: 0 },
            bottom_left: Point { x: 0, y: 1 },
            bottom_right: Point { x: 4294967295, y: 1 },
        }
    );
}

#[test]
fn warp_is_degenerate_for_empty_and_swallowed_rasters() {
    assert!(is_warp_degenerate(0, 0, 2));
    assert!(is_warp_degenerate(0, 9, 2));
    assert!(is_warp_degenerate(9, 0, -4));
    assert!(is_warp_degenerate(4, 9, 2));
    assert!(is_warp_degenerate(9, 4, 2));
    assert!(is_warp_degenerate(4, 4, 2));
    assert!(!is_warp_degenerate(4, 4, -4));
    assert!(!is_warp_degenerate(3, 3, 2));
    assert!(!is_warp_degenerate(5, 5, 2));
    assert!(!is_warp_degenerate(1, 1, 0));
}

#[test]
fn every_error_has_its_description() {
    assert_eq!(Error::Io.describe(), "input or output failed");
    assert_eq!(Error::Decode.describe(), "picture could not be decoded");
    assert_eq!(Error::Encode.describe(), "picture could not be encoded");
    assert_eq!(Error::Geometry.describe(), "degenerate geometry");
}

#[test]
fn upscaled_picture_is_read_in_the_format_of_the_original() {
    assert_eq!(format_named_by(File::Original), File::Original);
    assert_eq!(format_named_by(File::Upscaled), File::Original);
    assert_eq!(format_named_by(File::Output), File::Output);
}
