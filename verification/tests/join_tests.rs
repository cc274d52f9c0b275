use ffphotojoin::layout::compute_layout;
use ffphotojoin::layout::get_size;
use ffphotojoin::layout::perpendicular_size;
use ffphotojoin::layout::total_join_size;
use ffphotojoin::layout::Placement;
use ffphotojoin::join_photos;
use ffphotojoin::Direction;
use ffphotojoin::NoImagesProvided;
use ffphotojoin::Photo;
use ffphotojoin::PhotoJoinOptions;
use ffphotojoin::Sizing;
use image::imageops::FilterType;
use image::DynamicImage;
use image::Rgba;
use image::RgbaImage;

fn solid(w: u32, h: u32, rgba: [u8; 4]) -> DynamicImage {
    DynamicImage::ImageRgba8(RgbaImage::from_pixel(w, h, Rgba(rgba)))
}

fn patterned(w: u32, h: u32) -> DynamicImage {
    DynamicImage::ImageRgba8(RgbaImage::from_fn(w, h, |x, y| {
        Rgba([(x % 256) as u8, (y % 256) as u8, ((x + y) % 256) as u8, 255])
    }))
}

fn options(direction: Direction, sizing: Sizing, filter: FilterType) -> PhotoJoinOptions {
    PhotoJoinOptions {
        direction,
        sizing,
        filter,
    }
}

#[test]
fn empty_input_fails_for_every_option_combination() {
    let directions = [Direction::Horizontal, Direction::Vertical];
    let sizings = [Sizing::ToSmallest, Sizing::ToLargest];
    let filters = [
        FilterType::Nearest,
        FilterType::Triangle,
        FilterType::CatmullRom,
        FilterType::Gaussian,
        FilterType::Lanczos3,
    ];
    for &direction in &directions {
        for &sizing in &sizings {
            for &filter in &filters {
                let r = join_photos(Vec::new(), options(direction, sizing, filter));
                assert!(matches!(r, Err(NoImagesProvided)));
            }
        }
    }
}

#[test]
fn singleton_returns_image_unchanged() {
    let directions = [Direction::Horizontal, Direction::Vertical];
    let sizings = [Sizing::ToSmallest, Sizing::ToLargest];
    let filters = [FilterType::Nearest, FilterType::Gaussian, FilterType::Lanczos3];
    let img = patterned(13, 7);
    for &direction in &directions {
        for &sizing in &sizings {
            for &filter in &filters {
                let photo = Photo::from_image(img.clone());
                let joined = join_photos(vec![photo], options(direction, sizing, filter))
                    .expect("singleton join must succeed");
                assert_eq!(joined.into_image(), img);
            }
        }
    }
}

#[test]
fn from_image_records_dimensions() {
    let photo = Photo::from_image(patterned(7, 9));
    assert_eq!(photo.width(), 7);
    assert_eq!(photo.height(), 9);
}

#[test]
fn perpendicular_size_is_min_and_max() {
    let photos = vec![
        Photo::from_image(solid(5, 30, [1, 2, 3, 255])),
        Photo::from_image(solid(6, 10, [1, 2, 3, 255])),
        Photo::from_image(solid(7, 20, [1, 2, 3, 255])),
    ];
    // A horizontal join shares heights.
    assert_eq!(
        perpendicular_size(&photos, Direction::Horizontal, Sizing::ToSmallest),
        10
    );
    assert_eq!(
        perpendicular_size(&photos, Direction::Horizontal, Sizing::ToLargest),
        30
    );
    // A vertical join shares widths.
    assert_eq!(
        perpendicular_size(&photos, Direction::Vertical, Sizing::ToSmallest),
        5
    );
    assert_eq!(
        perpendicular_size(&photos, Direction::Vertical, Sizing::ToLargest),
        7
    );
}

#[test]
fn get_size_matches_scale_formula() {
    let photo = Photo::from_image(solid(100, 50, [0, 0, 0, 255]));
    // Horizontal: scaled to (100 * 25 / 50, 25) = (50, 25).
    assert_eq!(get_size(25, Direction::Horizontal, &photo), (50, 25));
    // Vertical: scaled to (25, 50 * 25 / 100) = (25, 12), truncated.
    assert_eq!(get_size(25, Direction::Vertical, &photo), (25, 12));
    // A zero perpendicular dimension contributes no extent.
    let degenerate = Photo::from_image(DynamicImage::ImageRgba8(RgbaImage::new(0, 0)));
    assert_eq!(get_size(50, Direction::Horizontal, &degenerate), (0, 50));
}

#[test]
fn total_join_size_matches_truncated_sum() {
    let photos = vec![
        Photo::from_image(solid(100, 50, [9, 9, 9, 255])),
        Photo::from_image(solid(60, 30, [9, 9, 9, 255])),
        Photo::from_image(solid(75, 25, [9, 9, 9, 255])),
    ];
    let p = perpendicular_size(&photos, Direction::Horizontal, Sizing::ToSmallest);
    assert_eq!(p, 25);
    // 100*25/50 + 60*25/30 + 75*25/25 = 50 + 50 + 75.
    assert_eq!(total_join_size(&photos, p, Direction::Horizontal), 175);
}

#[test]
fn sequential_offsets_are_prefix_sums() {
    let photos = vec![
        Photo::from_image(solid(100, 50, [9, 9, 9, 255])),
        Photo::from_image(solid(60, 30, [9, 9, 9, 255])),
        Photo::from_image(solid(75, 25, [9, 9, 9, 255])),
    ];
    let layout = compute_layout(&photos, 25, Direction::Horizontal);
    assert_eq!(
        layout,
        vec![
            Placement { x: 0, y: 0, width: 50, height: 25 },
            Placement { x: 50, y: 0, width: 50, height: 25 },
            Placement { x: 100, y: 0, width: 75, height: 25 },
        ]
    );
}

#[test]
fn scenario_two_squares_horizontal() {
    let photos = vec![
        Photo::from_image(patterned(100, 100)),
        Photo::from_image(patterned(100, 100)),
    ];
    let p = perpendicular_size(&photos, Direction::Horizontal, Sizing::ToSmallest);
    assert_eq!(p, 100);
    let layout = compute_layout(&photos, p, Direction::Horizontal);
    assert_eq!(
        layout,
        vec![
            Placement { x: 0, y: 0, width: 100, height: 100 },
            Placement { x: 100, y: 0, width: 100, height: 100 },
        ]
    );
    let joined = join_photos(
        photos,
        options(Direction::Horizontal, Sizing::ToSmallest, FilterType::Gaussian),
    )
    .expect("join must succeed");
    assert_eq!(joined.width(), 200);
    assert_eq!(joined.height(), 100);
}

#[test]
fn scenario_two_images_vertical_to_smallest() {
    let photos = vec![
        Photo::from_image(patterned(80, 100)),
        Photo::from_image(patterned(40, 100)),
    ];
    let p = perpendicular_size(&photos, Direction::Vertical, Sizing::ToSmallest);
    assert_eq!(p, 40);
    let layout = compute_layout(&photos, p, Direction::Vertical);
    assert_eq!(
        layout,
        vec![
            Placement { x: 0, y: 0, width: 40, height: 50 },
            Placement { x: 0, y: 50, width: 40, height: 100 },
        ]
    );
    let joined = join_photos(
        photos,
        options(Direction::Vertical, Sizing::ToSmallest, FilterType::Triangle),
    )
    .expect("join must succeed");
    assert_eq!(joined.width(), 40);
    assert_eq!(joined.height(), 150);
}

#[test]
fn scenario_equal_images_sizing_is_irrelevant() {
    let imgs = [patterned(60, 40), patterned(60, 40), patterned(60, 40)];
    let joined_smallest = join_photos(
        imgs.iter().cloned().map(Photo::from_image).collect(),
        options(Direction::Horizontal, Sizing::ToSmallest, FilterType::CatmullRom),
    )
    .expect("join must succeed");
    let joined_largest = join_photos(
        imgs.iter().cloned().map(Photo::from_image).collect(),
        options(Direction::Horizontal, Sizing::ToLargest, FilterType::CatmullRom),
    )
    .expect("join must succeed");
    assert_eq!(joined_smallest.into_image(), joined_largest.into_image());
}

#[test]
fn idempotence_of_singleton_rejoin() {
    let photos = vec![
        Photo::from_image(patterned(30, 30)),
        Photo::from_image(patterned(30, 30)),
    ];
    let joined = join_photos(
        photos,
        options(Direction::Vertical, Sizing::ToLargest, FilterType::Nearest),
    )
    .expect("join must succeed");
    let joined_img = joined.into_image();
    let rejoined = join_photos(
        vec![Photo::from_image(joined_img.clone())],
        options(Direction::Vertical, Sizing::ToLargest, FilterType::Nearest),
    )
    .expect("singleton join must succeed");
    assert_eq!(rejoined.into_image(), joined_img);
}

#[test]
fn zero_sized_image_contributes_nothing() {
    let photos = vec![
        Photo::from_image(DynamicImage::ImageRgba8(RgbaImage::new(0, 0))),
        Photo::from_image(solid(100, 100, [5, 5, 5, 255])),
    ];
    let joined = join_photos(
        photos,
        options(Direction::Vertical, Sizing::ToLargest, FilterType::Nearest),
    )
    .expect("join must succeed");
    assert_eq!(joined.width(), 100);
    assert_eq!(joined.height(), 100);
}

#[test]
fn zero_perpendicular_size_yields_empty_output() {
    // Horizontal join to the smallest height, and one image has height 0:
    // P = min(0, 100) = 0, every scaled extent is 0, and the output is an
    // empty image rather than a crash.
    let photos = vec![
        Photo::from_image(DynamicImage::ImageRgba8(RgbaImage::new(50, 0))),
        Photo::from_image(solid(100, 100, [5, 5, 5, 255])),
    ];
    let joined = join_photos(
        photos,
        options(Direction::Horizontal, Sizing::ToSmallest, FilterType::Gaussian),
    )
    .expect("join must succeed");
    assert_eq!(joined.width(), 0);
    assert_eq!(joined.height(), 0);
}

#[test]
fn resize_samples_content_not_a_crop() {
    // The second image is 20x20, green on its left half and blue on its
    // right half. A vertical join to the smallest width (10) scales it to
    // 10x10, so the right side of its slot must show blue; pasting the
    // image unscaled would leave only cropped green columns there.
    let half_split = DynamicImage::ImageRgba8(RgbaImage::from_fn(20, 20, |x, _| {
        if x < 10 {
            Rgba([0, 255, 0, 255])
        } else {
            Rgba([0, 0, 255, 255])
        }
    }));
    let photos = vec![
        Photo::from_image(solid(10, 100, [255, 0, 0, 255])),
        Photo::from_image(half_split),
    ];
    let joined = join_photos(
        photos,
        options(Direction::Vertical, Sizing::ToSmallest, FilterType::Nearest),
    )
    .expect("join must succeed");
    // P = min(10, 20) = 10; extents 100*10/10 = 100 and 20*10/20 = 10;
    // canvas 10x110, with the second image's slot at y = 100..110.
    assert_eq!(joined.width(), 10);
    assert_eq!(joined.height(), 110);
    let raster = joined.into_image().to_rgba8();
    assert_eq!(*raster.get_pixel(2, 105), Rgba([0, 255, 0, 255]));
    assert_eq!(*raster.get_pixel(7, 105), Rgba([0, 0, 255, 255]));
}

#[test]
fn overlay_places_scaled_content_at_offsets() {
    let photos = vec![
        Photo::from_image(solid(100, 100, [255, 0, 0, 255])),
        Photo::from_image(solid(50, 50, [0, 0, 255, 255])),
    ];
    let joined = join_photos(
        photos,
        options(Direction::Horizontal, Sizing::ToSmallest, FilterType::Nearest),
    )
    .expect("join must succeed");
    // P = min(100, 50) = 50; both images scale to 50x50; canvas 100x50.
    assert_eq!(joined.width(), 100);
    assert_eq!(joined.height(), 50);
    let raster = joined.into_image().to_rgba8();
    assert_eq!(*raster.get_pixel(25, 25), Rgba([255, 0, 0, 255]));
    assert_eq!(*raster.get_pixel(75, 25), Rgba([0, 0, 255, 255]));
}
