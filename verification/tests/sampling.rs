use kiss3d_textures::resource::sampling::{
    AddressMode, FilterMode, MipmapFilterMode, PlainTexture, SamplerSettings, TexelFormat,
    TextureSampling, TextureWrapping,
};

/// The device aborts the process on a sampler it considers invalid, so a
/// settings file asking for anisotropy on a pixel-art texture has to lose
/// the anisotropy rather than the run.
#[test]
fn anisotropy_needs_every_filter_linear() {
    let pixelated = TextureSampling {
        mag_filter: FilterMode::Nearest,
        anisotropy: 16,
        ..Default::default()
    };
    assert_eq!(pixelated.sane().anisotropy, 1);

    let smooth = TextureSampling {
        anisotropy: 16,
        ..Default::default()
    };
    assert_eq!(smooth.sane().anisotropy, 16);
    assert_eq!(
        TextureSampling {
            anisotropy: 64,
            ..Default::default()
        }
        .sane()
        .anisotropy,
        16,
        "more than the device offers is clamped, not refused"
    );
}

#[test]
fn the_default_sampling_is_what_add_image_always_did() {
    let sampling = TextureSampling::default();
    assert_eq!(sampling.wrap_u, TextureWrapping::ClampToEdge);
    assert_eq!(sampling.mag_filter, FilterMode::Linear);
    assert!(sampling.srgb && !sampling.mipmaps && !sampling.premultiply);
}

#[test]
fn sane_lifts_zero_anisotropy_to_one_sample() {
    let zero = TextureSampling {
        anisotropy: 0,
        ..Default::default()
    };
    assert_eq!(zero.sane().anisotropy, 1);
    let nearest_mips = TextureSampling {
        mipmap_filter: MipmapFilterMode::Nearest,
        anisotropy: 8,
        ..Default::default()
    };
    assert_eq!(nearest_mips.sane().anisotropy, 1);
    let minified_nearest = TextureSampling {
        min_filter: FilterMode::Nearest,
        anisotropy: 4,
        ..Default::default()
    };
    assert_eq!(minified_nearest.sane().anisotropy, 1);
}

#[test]
fn sane_changes_nothing_but_anisotropy_and_only_once() {
    let asked = TextureSampling {
        wrap_u: TextureWrapping::Repeat,
        wrap_v: TextureWrapping::MirroredRepeat,
        mipmaps: true,
        anisotropy: 40,
        srgb: false,
        premultiply: true,
        ..Default::default()
    };
    let sane = asked.sane();
    assert_eq!(sane, TextureSampling { anisotropy: 16, ..asked });
    assert_eq!(sane.sane(), sane);
    let accepted = TextureSampling {
        anisotropy: 7,
        ..Default::default()
    };
    assert_eq!(accepted.sane(), accepted);
}

#[test]
fn the_format_follows_the_colour_space() {
    assert_eq!(TextureSampling::default().format(), TexelFormat::Rgba8UnormSrgb);
    let data = TextureSampling {
        srgb: false,
        ..Default::default()
    };
    assert_eq!(data.format(), TexelFormat::Rgba8Unorm);
}

#[test]
fn only_the_two_tiling_modes_keep_their_wrapping() {
    assert_eq!(TextureWrapping::from_address_mode(AddressMode::Repeat), TextureWrapping::Repeat);
    assert_eq!(
        TextureWrapping::from_address_mode(AddressMode::MirrorRepeat),
        TextureWrapping::MirroredRepeat
    );
    assert_eq!(
        TextureWrapping::from_address_mode(AddressMode::ClampToEdge),
        TextureWrapping::ClampToEdge
    );
    assert_eq!(
        TextureWrapping::from_address_mode(AddressMode::ClampToBorder),
        TextureWrapping::ClampToEdge
    );
}

#[test]
fn a_uniform_sampling_uses_one_mode_and_one_filter_everywhere() {
    let s = TextureSampling::uniform(AddressMode::Repeat, FilterMode::Nearest, false, true);
    assert_eq!(
        s,
        TextureSampling {
            wrap_u: TextureWrapping::Repeat,
            wrap_v: TextureWrapping::Repeat,
            mag_filter: FilterMode::Nearest,
            min_filter: FilterMode::Nearest,
            mipmap_filter: MipmapFilterMode::Linear,
            mipmaps: true,
            anisotropy: 1,
            srgb: false,
            premultiply: false,
        }
    );
    let flat = TextureSampling::uniform(AddressMode::ClampToBorder, FilterMode::Linear, true, false);
    assert_eq!(flat.mipmap_filter, MipmapFilterMode::Nearest);
    assert!(!flat.mipmaps);
    assert_eq!(flat.wrap_v, TextureWrapping::ClampToEdge);
    assert_eq!(flat.sane(), flat);
}

#[test]
fn the_sampler_wraps_the_third_axis_as_the_first() {
    let s = TextureSampling {
        wrap_u: TextureWrapping::Repeat,
        wrap_v: TextureWrapping::MirroredRepeat,
        mag_filter: FilterMode::Nearest,
        anisotropy: 1,
        mipmaps: true,
        mipmap_filter: MipmapFilterMode::Nearest,
        ..Default::default()
    };
    assert_eq!(
        s.sampler_settings(),
        SamplerSettings {
            address_mode_u: TextureWrapping::Repeat,
            address_mode_v: TextureWrapping::MirroredRepeat,
            address_mode_w: TextureWrapping::Repeat,
            mag_filter: FilterMode::Nearest,
            min_filter: FilterMode::Linear,
            mipmap_filter: MipmapFilterMode::Nearest,
            anisotropy_clamp: 1,
        }
    );
}

#[test]
fn without_a_mip_chain_the_sampler_takes_the_nearest_level() {
    let one_sample = TextureSampling::default();
    let settings = one_sample.sampler_settings();
    assert_eq!(settings.mipmap_filter, MipmapFilterMode::Nearest);
    let other_filter = TextureSampling { mipmap_filter: MipmapFilterMode::Nearest, ..one_sample };
    assert_eq!(other_filter.sampler_settings(), settings);
    let with_mips = TextureSampling { mipmaps: true, ..one_sample };
    assert_eq!(with_mips.sampler_settings().mipmap_filter, MipmapFilterMode::Linear);
}

/// Sixteen samples per fetch on a texture without a mip chain: the sampler
/// still gets the linear filter between levels the device asks for beside
/// anisotropy, so it is built rather than refused.
#[test]
fn an_anisotropic_texture_without_mips_gets_a_sampler_the_device_builds() {
    let s = TextureSampling {
        anisotropy: 16,
        ..Default::default()
    }
    .sane();
    let settings = s.sampler_settings();
    assert_eq!(settings.anisotropy_clamp, 16);
    assert_eq!(settings.mipmap_filter, MipmapFilterMode::Linear);
    assert_eq!(settings.mag_filter, FilterMode::Linear);
    assert_eq!(settings.min_filter, FilterMode::Linear);
}

#[test]
fn a_sampled_upload_is_made_sane_first() {
    let asked = TextureSampling {
        mag_filter: FilterMode::Nearest,
        anisotropy: 16,
        srgb: false,
        premultiply: true,
        ..Default::default()
    };
    let upload = asked.sampled_upload();
    assert_eq!(upload.sampling, asked.sane());
    assert_eq!(upload.sampling.anisotropy, 1);
    assert_eq!(upload.format, TexelFormat::Rgba8Unorm);
    assert!(upload.premultiply);
    assert!(!TextureSampling::default().sampled_upload().premultiply);
}

#[test]
fn loaded_images_and_material_images_are_made_as_before() {
    let loaded = PlainTexture::loaded_image(FilterMode::Nearest, true);
    assert_eq!(
        loaded,
        PlainTexture {
            format: TexelFormat::Rgba8UnormSrgb,
            address_mode: AddressMode::ClampToEdge,
            filter: FilterMode::Nearest,
            generate_mipmaps: true,
        }
    );
    assert_eq!(
        loaded.sampling(),
        TextureSampling::uniform(AddressMode::ClampToEdge, FilterMode::Nearest, true, true)
    );
    let data = PlainTexture::in_color_space(false, false);
    assert_eq!(data.format, TexelFormat::Rgba8Unorm);
    assert_eq!(data.address_mode, AddressMode::Repeat);
    assert_eq!(data.filter, FilterMode::Linear);
    assert!(!data.sampling().srgb);
    assert_eq!(PlainTexture::in_color_space(true, true).format, TexelFormat::Rgba8UnormSrgb);
}

#[test]
fn the_default_samples_as_a_plain_clamped_bilinear_srgb_texture() {
    let plain = PlainTexture::loaded_image(FilterMode::Linear, false).sampling();
    let default = TextureSampling::default();
    assert_eq!(plain.sampler_settings(), default.sampler_settings());
    assert_eq!(TextureSampling { mipmap_filter: MipmapFilterMode::Linear, ..plain }, default);
}
