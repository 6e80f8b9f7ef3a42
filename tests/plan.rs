use adrt::plan::{derived_height, ConfigError, RenderPlan};
use adrt::ppm::header;

#[test]
fn height_never_below_one() {
    assert_eq!(derived_height(0), 1);
    assert_eq!(derived_height(-5), 1);
    assert_eq!(derived_height(1), 1);
    assert_eq!(derived_height(675), 675);
}

#[test]
fn plan_keeps_parameters() {
    let p = RenderPlan::new(1200, 675, 50, 10).unwrap();
    assert_eq!(p.image_width, 1200);
    assert_eq!(p.image_height, 675);
    assert_eq!(p.samples_per_pixel, 50);
    assert_eq!(p.max_depth, 10);
    assert_eq!(p.pixel_count(), 810000);
}

#[test]
fn plan_derives_minimum_height() {
    let p = RenderPlan::new(3, 0, 1, 0).unwrap();
    assert_eq!(p.image_height, 1);
    assert_eq!(p.max_depth, 0);
    assert_eq!(p.pixel_count(), 3);
}

#[test]
fn zero_width_is_refused() {
    assert_eq!(RenderPlan::new(0, 10, 1, 1), Err(ConfigError::NonPositiveWidth));
    assert_eq!(RenderPlan::new(-4, 10, 0, -1), Err(ConfigError::NonPositiveWidth));
}

#[test]
fn zero_samples_are_refused() {
    assert_eq!(RenderPlan::new(4, 2, 0, 1), Err(ConfigError::NonPositiveSamples));
}

#[test]
fn negative_depth_is_refused() {
    assert_eq!(RenderPlan::new(4, 2, 1, -1), Err(ConfigError::NegativeDepth));
}

#[test]
fn raster_order_row_by_row() {
    let p = RenderPlan::new(3, 2, 1, 1).unwrap();
    let order: Vec<(u32, u32)> = (0..p.pixel_count()).map(|k| p.pixel_at(k)).collect();
    assert_eq!(order, vec![(0, 0), (1, 0), (2, 0), (0, 1), (1, 1), (2, 1)]);
    for k in 0..p.pixel_count() {
        let (i, j) = p.pixel_at(k);
        assert_eq!(p.pixel_index(i, j), k);
    }
    assert_eq!(p.pixel_index(2, 1), 5);
}

#[test]
fn two_by_one_render_has_two_pixels() {
    // width 2 at aspect ratio 2.0 floors to one row
    let floored = (2.0_f64 / 2.0_f64) as i32;
    let p = RenderPlan::new(2, floored, 1, 1).unwrap();
    assert_eq!(p.pixel_count(), 2);
    assert_eq!(p.pixel_at(0), (0, 0));
    assert_eq!(p.pixel_at(1), (1, 0));
    assert_eq!(header(p.image_width, p.image_height), b"P3\n2 1\n255\n".to_vec());
}
