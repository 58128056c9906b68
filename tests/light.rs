use pbrt_env::half_bits::{decode_half, HalfValue};
use pbrt_env::infinite::{
    clamp_samples, exr_channels_usable, ChannelKind, DecodedImage, InfiniteAreaLight,
    LIGHT_FLAG_INFINITE,
};
use pbrt_env::texel_grid::{wrap_coord, TexelGrid};

fn image(width: usize, height: usize, texels: Vec<u32>) -> DecodedImage<u32> {
    DecodedImage { width, height, texels }
}

#[test]
fn half_one_is_exact() {
    assert_eq!(
        decode_half(0x3c00),
        HalfValue::Finite { negative: false, significand: 1024, exponent: -10 }
    );
}

#[test]
fn half_negative_two() {
    assert_eq!(
        decode_half(0xc000),
        HalfValue::Finite { negative: true, significand: 1024, exponent: -9 }
    );
}

#[test]
fn half_subnormal_and_zero() {
    assert_eq!(
        decode_half(0x0001),
        HalfValue::Finite { negative: false, significand: 1, exponent: -24 }
    );
    assert_eq!(
        decode_half(0x8000),
        HalfValue::Finite { negative: true, significand: 0, exponent: -24 }
    );
}

#[test]
fn half_largest_finite() {
    assert_eq!(
        decode_half(0x7bff),
        HalfValue::Finite { negative: false, significand: 2047, exponent: 5 }
    );
}

#[test]
fn half_infinities_and_nan() {
    assert_eq!(decode_half(0x7c00), HalfValue::Infinite { negative: false });
    assert_eq!(decode_half(0xfc00), HalfValue::Infinite { negative: true });
    assert_eq!(decode_half(0x7e00), HalfValue::NotANumber);
}

#[test]
fn wrap_repeats_both_ways() {
    assert_eq!(wrap_coord(0, 4), 0);
    assert_eq!(wrap_coord(5, 4), 1);
    assert_eq!(wrap_coord(-1, 4), 3);
    assert_eq!(wrap_coord(-4, 4), 0);
    assert_eq!(wrap_coord(-5, 4), 3);
    assert_eq!(wrap_coord(i64::MIN, 1), 0);
    assert_eq!(wrap_coord(i64::MAX, 10), 7);
}

#[test]
fn grid_rejects_bad_shapes() {
    assert!(TexelGrid::from_rows(0, 1, Vec::<u32>::new()).is_none());
    assert!(TexelGrid::from_rows(2, 2, vec![1u32, 2, 3]).is_none());
    assert!(TexelGrid::from_rows(2, 2, vec![1u32, 2, 3, 4]).is_some());
}

#[test]
fn grid_point_query_wraps() {
    let g = TexelGrid::from_rows(3, 2, vec![10u32, 11, 12, 20, 21, 22]).unwrap();
    assert_eq!(g.texel(0, 0), 10);
    assert_eq!(g.texel(2, 1), 22);
    assert_eq!(g.texel(3, 0), 10);
    assert_eq!(g.texel(-1, 0), 12);
    assert_eq!(g.texel(1, -1), 21);
    assert_eq!(g.texel(4, 3), 21);
}

#[test]
fn sample_count_is_at_least_one() {
    assert_eq!(clamp_samples(-3), 1);
    assert_eq!(clamp_samples(0), 1);
    assert_eq!(clamp_samples(1), 1);
    assert_eq!(clamp_samples(16), 16);
}

#[test]
fn default_light_is_constant() {
    let light = InfiniteAreaLight::default(0, 7u32);
    assert_eq!(light.lmap.width, 1);
    assert_eq!(light.lmap.height, 1);
    assert_eq!(light.distribution_width, 2);
    assert_eq!(light.distribution_height, 2);
    assert_eq!(light.get_n_samples(), 1);
    assert_eq!(light.get_flags(), LIGHT_FLAG_INFINITE);
    for (x, y) in [(0i64, 0i64), (5, -9), (-1000, 77), (i64::MAX, i64::MIN)] {
        assert_eq!(light.le_texel(x, y), 7);
    }
}

#[test]
fn new_prefers_exr_then_hdr() {
    let exr = image(2, 1, vec![1, 2]);
    let hdr = image(1, 1, vec![9]);
    let light = InfiniteAreaLight::new(5u32, 4, Some(exr), Some(hdr));
    assert_eq!(light.lmap.texels, vec![1, 2]);
    assert_eq!(light.distribution_width, 4);
    assert_eq!(light.distribution_height, 2);
    assert_eq!(light.get_n_samples(), 4);
}

#[test]
fn new_falls_back_to_hdr() {
    let broken = image(2, 2, vec![1, 2]);
    let hdr = image(1, 2, vec![8, 9]);
    let light = InfiniteAreaLight::new(5u32, 2, Some(broken), Some(hdr));
    assert_eq!(light.lmap.texels, vec![8, 9]);
    assert_eq!(light.lmap.width, 1);
    assert_eq!(light.lmap.height, 2);
}

#[test]
fn new_without_images_is_constant_tint() {
    let light = InfiniteAreaLight::new(5u32, 3, None, Some(image(0, 0, vec![])));
    assert_eq!(light.lmap.texels, vec![5]);
    assert_eq!(light.le_texel(12, -4), 5);
    assert_eq!(light.get_n_samples(), 3);
}

#[test]
fn from_image_rejects_empty() {
    assert!(InfiniteAreaLight::from_image(1, image(0, 3, vec![])).is_none());
    assert!(InfiniteAreaLight::from_image(1, image(3, 1, vec![1, 2, 3])).is_some());
}

#[test]
fn importance_cells_in_row_order() {
    let light = InfiniteAreaLight::from_image(1, image(2, 1, vec![1u32, 2])).unwrap();
    let cells = light.importance_cells();
    assert_eq!(cells.len(), 8);
    assert_eq!(cells[0], (0, 0));
    assert_eq!(cells[3], (3, 0));
    assert_eq!(cells[4], (0, 1));
    assert_eq!(cells[7], (3, 1));
}

#[test]
fn exr_channels_must_be_half() {
    let h = Some(ChannelKind::Half);
    assert!(exr_channels_usable(h, h, h));
    assert!(!exr_channels_usable(h, Some(ChannelKind::Float), h));
    assert!(!exr_channels_usable(h, h, None));
    assert!(!exr_channels_usable(Some(ChannelKind::Uint), h, h));
}

#[test]
fn new_hdr_uses_usable_image_only() {
    let light = InfiniteAreaLight::new_hdr(5u32, 1, Some(image(1, 1, vec![3])));
    assert_eq!(light.lmap.texels, vec![3]);
    let fallback = InfiniteAreaLight::new_hdr(5u32, 1, Some(image(2, 1, vec![3])));
    assert_eq!(fallback.lmap.texels, vec![5]);
    let none = InfiniteAreaLight::new_hdr(6u32, 1, None);
    assert_eq!(none.le_texel(-3, 9), 6);
}
