use kiss3d_textures::resource::pixels::{premultiply_channel, premultiply_rgba_linear};

/// A transparent texel keeps no colour to bleed into its neighbours, and
/// an opaque one is left exactly as it was authored.
#[test]
fn premultiplying_scales_colour_by_alpha() {
    let straight = [255u8, 128, 0, 0, 255, 128, 0, 255];
    let linear = premultiply_rgba_linear(&straight);
    assert_eq!(&linear[..4], &[0, 0, 0, 0]);
    assert_eq!(&linear[4..], &[255, 128, 0, 255]);
}

/// The integer rounding is the one the floating-point scaling gives, for
/// every channel and every alpha.
#[test]
fn channel_scaling_matches_the_float_formula_everywhere() {
    for channel in 0..=255u8 {
        for alpha in 0..=255u8 {
            let float = ((channel as f32) * (alpha as f32 / 255.0) + 0.5) as u8;
            assert_eq!(premultiply_channel(channel, alpha), float, "{channel} {alpha}");
        }
    }
}

#[test]
fn half_alpha_halves_linear_colour() {
    let straight = [200u8, 100, 1, 128];
    assert_eq!(premultiply_rgba_linear(&straight), vec![100, 50, 1, 128]);
}

#[test]
fn bytes_after_the_last_whole_texel_are_kept() {
    let straight = [10u8, 20, 30, 0, 40, 50];
    assert_eq!(premultiply_rgba_linear(&straight), vec![0, 0, 0, 0, 40, 50]);
    assert!(premultiply_rgba_linear(&[]).is_empty());
}
