//! How a texture is sampled, and the rules that keep a sampler acceptable to
//! the device.

use vstd::prelude::*;

verus! {

/// Wrapping parameters for a texture.
#[derive(Clone, Copy, Debug, PartialEq, Eq, Structural, Hash)]
pub enum TextureWrapping {
    /// Repeats the texture when a texture coordinate is out of bounds.
    Repeat,
    /// Repeats the mirrored texture when a texture coordinate is out of bounds.
    MirroredRepeat,
    /// Repeats the nearest edge point texture color when a texture coordinate is out of bounds.
    ClampToEdge,
}

/// How the device addresses a coordinate outside the texture: the four
/// modes a sampler can be built with.
#[derive(Clone, Copy, Debug, PartialEq, Eq, Structural, Hash)]
pub enum AddressMode {
    /// The nearest edge texel.
    ClampToEdge,
    /// The texture tiled.
    Repeat,
    /// The texture tiled, every other tile mirrored.
    MirrorRepeat,
    /// A fixed border colour.
    ClampToBorder,
}

/// The filter between texels.
#[derive(Clone, Copy, Debug, PartialEq, Eq, Structural, Hash)]
pub enum FilterMode {
    /// The nearest texel: crisp, blocky when magnified.
    Nearest,
    /// Bilinear interpolation between the nearest texels.
    Linear,
}

/// The filter between mip levels.
#[derive(Clone, Copy, Debug, PartialEq, Eq, Structural, Hash)]
pub enum MipmapFilterMode {
    /// The nearest mip level.
    Nearest,
    /// A blend of the two nearest mip levels.
    Linear,
}

/// The pixel format texels are uploaded in: four bytes per texel, colour
/// either sRGB-encoded or raw.
#[derive(Clone, Copy, Debug, PartialEq, Eq, Structural, Hash)]
pub enum TexelFormat {
    /// RGBA8, colour sRGB-encoded and decoded by the sampler.
    Rgba8UnormSrgb,
    /// RGBA8, returned raw.
    Rgba8Unorm,
}

impl TextureWrapping {
    /// The wrapping a sampler built with `mode` applies: the two tiling modes
    /// keep their meaning, and anything else clamps to the edge.
    pub open spec fn wrapping_of(mode: AddressMode) -> TextureWrapping {
        match mode {
            AddressMode::MirrorRepeat => TextureWrapping::MirroredRepeat,
            AddressMode::Repeat => TextureWrapping::Repeat,
            _ => TextureWrapping::ClampToEdge,
        }
    }

    /// The wrapping for a texture created with the address mode `mode`.
    pub fn from_address_mode(mode: AddressMode) -> (r: TextureWrapping)
        ensures
            r == Self::wrapping_of(mode),
            mode == AddressMode::Repeat ==> r == TextureWrapping::Repeat,
            mode == AddressMode::MirrorRepeat ==> r == TextureWrapping::MirroredRepeat,
            mode == AddressMode::ClampToEdge ==> r == TextureWrapping::ClampToEdge,
            mode == AddressMode::ClampToBorder ==> r == TextureWrapping::ClampToEdge,
    {
        match mode {
            AddressMode::MirrorRepeat => TextureWrapping::MirroredRepeat,
            AddressMode::Repeat => TextureWrapping::Repeat,
            _ => TextureWrapping::ClampToEdge,
        }
    }
}

/// The most samples per fetch a device offers.
pub const MAX_ANISOTROPY: u16 = 16;

/// The whole of how one texture is sampled, and how its pixels are prepared
/// before they reach the GPU.
#[derive(Clone, Copy, Debug, PartialEq, Eq, Structural, Hash)]
pub struct TextureSampling {
    /// Wrapping across the horizontal axis.
    pub wrap_u: TextureWrapping,
    /// Wrapping across the vertical axis.
    pub wrap_v: TextureWrapping,
    /// Between texels when the texture is magnified.
    pub mag_filter: FilterMode,
    /// Between texels when it is minified.
    pub min_filter: FilterMode,
    /// Between mip levels, read only when `mipmaps` is set.
    pub mipmap_filter: MipmapFilterMode,
    /// Build the mip chain on upload, box-filtered in linear light.
    pub mipmaps: bool,
    /// Samples per fetch, 1 to 16. The device refuses anything above 1
    /// unless all three filters are linear, so [`TextureSampling::sane`]
    /// lowers it.
    pub anisotropy: u16,
    /// Colour authored in sRGB, which the sampler decodes; data (a normal
    /// map, a mask) sets this false and is returned raw.
    pub srgb: bool,
    /// Multiply RGB by alpha before upload, which stops a filtered edge
    /// bleeding the transparent texels' colour into what is drawn.
    pub premultiply: bool,
}

/// Clamped, bilinear, no mip chain, sRGB colour, one sample per fetch.
pub open spec fn default_sampling() -> TextureSampling {
    TextureSampling {
        wrap_u: TextureWrapping::ClampToEdge,
        wrap_v: TextureWrapping::ClampToEdge,
        mag_filter: FilterMode::Linear,
        min_filter: FilterMode::Linear,
        mipmap_filter: MipmapFilterMode::Linear,
        mipmaps: false,
        anisotropy: 1,
        srgb: true,
        premultiply: false,
    }
}

impl Default for TextureSampling {
    /// What adding an image has always done: clamped, bilinear, no mip
    /// chain, sRGB colour.
    fn default() -> (r: Self)
        ensures
            r == default_sampling(),
            r.wrap_u == TextureWrapping::ClampToEdge && r.wrap_v == TextureWrapping::ClampToEdge,
            r.mag_filter == FilterMode::Linear && r.min_filter == FilterMode::Linear,
            r.mipmap_filter == MipmapFilterMode::Linear,
            !r.mipmaps && r.anisotropy == 1 && r.srgb && !r.premultiply,
    {
        TextureSampling {
            wrap_u: TextureWrapping::ClampToEdge,
            wrap_v: TextureWrapping::ClampToEdge,
            mag_filter: FilterMode::Linear,
            min_filter: FilterMode::Linear,
            mipmap_filter: MipmapFilterMode::Linear,
            mipmaps: false,
            anisotropy: 1,
            srgb: true,
            premultiply: false,
        }
    }
}

impl TextureSampling {
    /// All three filters are linear: the only case in which the device
    /// takes more than one sample per fetch.
    pub open spec fn all_filters_linear(self) -> bool {
        &&& self.mag_filter == FilterMode::Linear
        &&& self.min_filter == FilterMode::Linear
        &&& self.mipmap_filter == MipmapFilterMode::Linear
    }

    /// A sampler the device builds rather than refusing: one to sixteen
    /// samples per fetch, and more than one only with every filter linear.
    pub open spec fn device_accepts(self) -> bool {
        &&& 1 <= self.anisotropy <= MAX_ANISOTROPY
        &&& self.anisotropy > 1 ==> self.all_filters_linear()
    }

    /// The anisotropy that `sane` keeps: clamped to 1..=16 when every
    /// filter is linear, else 1.
    pub open spec fn sane_anisotropy(self) -> u16 {
        if self.all_filters_linear() {
            if self.anisotropy < 1 {
                1
            } else if self.anisotropy > MAX_ANISOTROPY {
                MAX_ANISOTROPY
            } else {
                self.anisotropy
            }
        } else {
            1
        }
    }

    /// This sampling with only its anisotropy changed, to `sane_anisotropy`.
    pub open spec fn spec_sane(self) -> TextureSampling {
        TextureSampling { anisotropy: self.sane_anisotropy(), ..self }
    }

    /// This sampling with whatever the device would refuse taken back out.
    ///
    /// The device validates anisotropy against the three filters and
    /// aborts the process on a mismatch; a texture asked for more than the
    /// driver's sixteen is a settings file, not a bug worth a crash.
    pub fn sane(self) -> (r: Self)
        ensures
            r == self.spec_sane(),
            r == (TextureSampling { anisotropy: r.anisotropy, ..self }),
            self.all_filters_linear() && 1 <= self.anisotropy <= MAX_ANISOTROPY ==> r.anisotropy
                == self.anisotropy,
            self.all_filters_linear() && self.anisotropy > MAX_ANISOTROPY ==> r.anisotropy
                == MAX_ANISOTROPY,
            !self.all_filters_linear() || self.anisotropy == 0 ==> r.anisotropy == 1,
            r.device_accepts(),
    {
        let linear = self.mag_filter == FilterMode::Linear && self.min_filter == FilterMode::Linear
            && self.mipmap_filter == MipmapFilterMode::Linear;
        let anisotropy: u16 = if linear {
            if self.anisotropy < 1 {
                1
            } else if self.anisotropy > MAX_ANISOTROPY {
                MAX_ANISOTROPY
            } else {
                self.anisotropy
            }
        } else {
            1
        };
        TextureSampling { anisotropy, ..self }
    }

    /// The pixel format this sampling reads its texels through.
    pub fn format(self) -> (r: TexelFormat)
        ensures
            r == (if self.srgb {
                TexelFormat::Rgba8UnormSrgb
            } else {
                TexelFormat::Rgba8Unorm
            }),
    {
        if self.srgb {
            TexelFormat::Rgba8UnormSrgb
        } else {
            TexelFormat::Rgba8Unorm
        }
    }

    /// The sampling of a texture created from a single address mode and a
    /// single filter: the same wrapping on both axes, the same filter for
    /// magnification and minification, a linear blend between mip levels
    /// only when a mip chain is built, and otherwise the defaults.
    pub open spec fn spec_uniform(
        address_mode: AddressMode,
        filter: FilterMode,
        srgb: bool,
        generate_mipmaps: bool,
    ) -> TextureSampling {
        TextureSampling {
            wrap_u: TextureWrapping::wrapping_of(address_mode),
            wrap_v: TextureWrapping::wrapping_of(address_mode),
            mag_filter: filter,
            min_filter: filter,
            mipmap_filter: if generate_mipmaps {
                MipmapFilterMode::Linear
            } else {
                MipmapFilterMode::Nearest
            },
            mipmaps: generate_mipmaps,
            srgb: srgb,
            ..default_sampling()
        }
    }

    /// The sampling a texture gets when it is created from one address mode
    /// and one filter, as the plain texture constructor does.
    pub fn uniform(address_mode: AddressMode, filter: FilterMode, srgb: bool, generate_mipmaps: bool) -> (r: TextureSampling)
        ensures
            r == Self::spec_uniform(address_mode, filter, srgb, generate_mipmaps),
            r.wrap_u == r.wrap_v,
            address_mode == AddressMode::Repeat ==> r.wrap_u == TextureWrapping::Repeat,
            address_mode == AddressMode::MirrorRepeat ==> r.wrap_u == TextureWrapping::MirroredRepeat,
            address_mode == AddressMode::ClampToEdge ==> r.wrap_u == TextureWrapping::ClampToEdge,
            address_mode == AddressMode::ClampToBorder ==> r.wrap_u == TextureWrapping::ClampToEdge,
            r.mag_filter == filter,
            r.min_filter == filter,
            r.mipmaps == generate_mipmaps,
            r.mipmap_filter == (if generate_mipmaps {
                MipmapFilterMode::Linear
            } else {
                MipmapFilterMode::Nearest
            }),
            r.srgb == srgb,
            r.anisotropy == 1,
            !r.premultiply,
    {
        let wrapping = TextureWrapping::from_address_mode(address_mode);
        TextureSampling {
            wrap_u: wrapping,
            wrap_v: wrapping,
            mag_filter: filter,
            min_filter: filter,
            mipmap_filter: if generate_mipmaps {
                MipmapFilterMode::Linear
            } else {
                MipmapFilterMode::Nearest
            },
            mipmaps: generate_mipmaps,
            srgb,
            ..Default::default()
        }
    }
}

/// A texture created from one address mode and one filter: its format,
/// how coordinates outside it are addressed, its filter, and whether a mip
/// chain is built.
#[derive(Clone, Copy, Debug, PartialEq, Eq, Structural)]
pub struct PlainTexture {
    pub format: TexelFormat,
    pub address_mode: AddressMode,
    pub filter: FilterMode,
    pub generate_mipmaps: bool,
}

/// An image loaded as colour: sRGB, clamped to the edge.
pub open spec fn spec_loaded_image(filter: FilterMode, generate_mipmaps: bool) -> PlainTexture {
    PlainTexture {
        format: TexelFormat::Rgba8UnormSrgb,
        address_mode: AddressMode::ClampToEdge,
        filter,
        generate_mipmaps,
    }
}

/// An image in a chosen colour space, tiled as a material texture is:
/// repeated, bilinear.
pub open spec fn spec_in_color_space(srgb: bool, generate_mipmaps: bool) -> PlainTexture {
    PlainTexture {
        format: if srgb {
            TexelFormat::Rgba8UnormSrgb
        } else {
            TexelFormat::Rgba8Unorm
        },
        address_mode: AddressMode::Repeat,
        filter: FilterMode::Linear,
        generate_mipmaps,
    }
}

impl PlainTexture {
    /// An image file or image loaded as colour: sRGB, clamped to the edge,
    /// with the given filter.
    pub fn loaded_image(filter: FilterMode, generate_mipmaps: bool) -> (r: PlainTexture)
        ensures
            r == spec_loaded_image(filter, generate_mipmaps),
            r.format == TexelFormat::Rgba8UnormSrgb,
            r.address_mode == AddressMode::ClampToEdge,
            r.filter == filter,
            r.generate_mipmaps == generate_mipmaps,
    {
        PlainTexture {
            format: TexelFormat::Rgba8UnormSrgb,
            address_mode: AddressMode::ClampToEdge,
            filter,
            generate_mipmaps,
        }
    }

    /// An image in a chosen colour space, as a material loader needs it:
    /// sRGB for colour, linear for data, repeated and bilinear.
    pub fn in_color_space(srgb: bool, generate_mipmaps: bool) -> (r: PlainTexture)
        ensures
            r == spec_in_color_space(srgb, generate_mipmaps),
            (r.format == TexelFormat::Rgba8UnormSrgb) == srgb,
            (r.format == TexelFormat::Rgba8Unorm) == !srgb,
            r.address_mode == AddressMode::Repeat,
            r.filter == FilterMode::Linear,
            r.generate_mipmaps == generate_mipmaps,
    {
        PlainTexture {
            format: if srgb {
                TexelFormat::Rgba8UnormSrgb
            } else {
                TexelFormat::Rgba8Unorm
            },
            address_mode: AddressMode::Repeat,
            filter: FilterMode::Linear,
            generate_mipmaps,
        }
    }

    /// The sampling of the texture: uniform, sRGB exactly when its format is.
    pub fn sampling(self) -> (r: TextureSampling)
        ensures
            r.srgb == (self.format == TexelFormat::Rgba8UnormSrgb),
            r.mipmaps == self.generate_mipmaps,
            r.mag_filter == self.filter,
            r.min_filter == self.filter,
            r.wrap_u == TextureWrapping::wrapping_of(self.address_mode),
            r.wrap_v == TextureWrapping::wrapping_of(self.address_mode),
            r == TextureSampling::spec_uniform(
                self.address_mode,
                self.filter,
                self.format == TexelFormat::Rgba8UnormSrgb,
                self.generate_mipmaps,
            ),
    {
        let srgb = match self.format {
            TexelFormat::Rgba8UnormSrgb => true,
            TexelFormat::Rgba8Unorm => false,
        };
        TextureSampling::uniform(self.address_mode, self.filter, srgb, self.generate_mipmaps)
    }
}

/// How a texture sampled as a `TextureSampling` asks is uploaded: the
/// sampling made sane, the format it reads through, and whether its texels
/// are premultiplied first.
#[derive(Clone, Copy, Debug, PartialEq, Eq, Structural)]
pub struct SampledUpload {
    pub sampling: TextureSampling,
    pub format: TexelFormat,
    pub premultiply: bool,
}

impl TextureSampling {
    /// How a texture sampled this way is uploaded: the sampling made sane,
    /// its format, and whether to premultiply. Its sampler is always one the
    /// device builds.
    pub fn sampled_upload(self) -> (r: SampledUpload)
        ensures
            r.sampling == self.spec_sane(),
            r.format == (if self.srgb {
                TexelFormat::Rgba8UnormSrgb
            } else {
                TexelFormat::Rgba8Unorm
            }),
            r.premultiply == self.premultiply,
            r.sampling.device_accepts(),
            sampler_accepted(r.sampling.spec_sampler_settings()),
    {
        let sampling = self.sane();
        proof {
            accepted_sampling_gives_an_accepted_sampler(sampling);
        }
        SampledUpload { sampling, format: sampling.format(), premultiply: sampling.premultiply }
    }
}

/// What the sampler of a texture is built with.
#[derive(Clone, Copy, Debug, PartialEq, Eq, Structural)]
pub struct SamplerSettings {
    pub address_mode_u: TextureWrapping,
    pub address_mode_v: TextureWrapping,
    pub address_mode_w: TextureWrapping,
    pub mag_filter: FilterMode,
    pub min_filter: FilterMode,
    pub mipmap_filter: MipmapFilterMode,
    pub anisotropy_clamp: u16,
}

/// A sampler the device builds rather than refusing.
pub open spec fn sampler_accepted(settings: SamplerSettings) -> bool {
    &&& settings.anisotropy_clamp >= 1
    &&& settings.anisotropy_clamp != 1 ==> {
        &&& settings.mag_filter == FilterMode::Linear
        &&& settings.min_filter == FilterMode::Linear
        &&& settings.mipmap_filter == MipmapFilterMode::Linear
    }
}

impl TextureSampling {
    /// The sampler settings of a texture sampled this way.
    pub open spec fn spec_sampler_settings(self) -> SamplerSettings {
        SamplerSettings {
            address_mode_u: self.wrap_u,
            address_mode_v: self.wrap_v,
            address_mode_w: self.wrap_u,
            mag_filter: self.mag_filter,
            min_filter: self.min_filter,
            mipmap_filter: self.effective_mipmap_filter(),
            anisotropy_clamp: self.anisotropy,
        }
    }

    /// The filter between mip levels the sampler is built with: the asked
    /// one with a mip chain. Without one there is a single level and the
    /// filter between levels samples nothing, so it is the nearest, unless
    /// more than one sample per fetch is taken, which the device accepts
    /// only beside a linear filter between levels.
    pub open spec fn effective_mipmap_filter(self) -> MipmapFilterMode {
        if self.mipmaps {
            self.mipmap_filter
        } else if self.anisotropy > 1 {
            MipmapFilterMode::Linear
        } else {
            MipmapFilterMode::Nearest
        }
    }

    /// The sampler settings of a texture sampled this way. Nothing here is
    /// a 3D texture, so the third axis wraps as the first rather than
    /// offering a key that samples nothing; the filter between mip levels is
    /// `effective_mipmap_filter`.
    pub fn sampler_settings(self) -> (r: SamplerSettings)
        ensures
            r == self.spec_sampler_settings(),
            r.address_mode_u == self.wrap_u,
            r.address_mode_v == self.wrap_v,
            r.address_mode_w == self.wrap_u,
            r.mag_filter == self.mag_filter,
            r.min_filter == self.min_filter,
            r.anisotropy_clamp == self.anisotropy,
            self.mipmaps ==> r.mipmap_filter == self.mipmap_filter,
            !self.mipmaps && self.anisotropy <= 1 ==> r.mipmap_filter == MipmapFilterMode::Nearest,
            !self.mipmaps && self.anisotropy > 1 ==> r.mipmap_filter == MipmapFilterMode::Linear,
    {
        SamplerSettings {
            address_mode_u: self.wrap_u,
            address_mode_v: self.wrap_v,
            address_mode_w: self.wrap_u,
            mag_filter: self.mag_filter,
            min_filter: self.min_filter,
            mipmap_filter: if self.mipmaps {
                self.mipmap_filter
            } else if self.anisotropy > 1 {
                MipmapFilterMode::Linear
            } else {
                MipmapFilterMode::Nearest
            },
            anisotropy_clamp: self.anisotropy,
        }
    }
}

/// A sampling the device accepts gives a sampler the device builds.
pub proof fn accepted_sampling_gives_an_accepted_sampler(s: TextureSampling)
    requires
        s.device_accepts(),
    ensures
        sampler_accepted(s.spec_sampler_settings()),
{
}

/// Whatever a sampling asks, once made sane it gives a sampler the device
/// builds: the device never aborts on a sampler made this way.
pub proof fn sane_sampling_gives_an_accepted_sampler(s: TextureSampling)
    ensures
        sampler_accepted(s.spec_sane().spec_sampler_settings()),
{
}

/// The filter between mip levels is read only when a mip chain is built:
/// without one, any filter gives the same sampler.
pub proof fn mipmap_filter_is_read_only_with_a_mip_chain(s: TextureSampling, filter: MipmapFilterMode)
    requires
        !s.mipmaps,
    ensures
        (TextureSampling { mipmap_filter: filter, ..s }).spec_sampler_settings() == s.spec_sampler_settings(),
{
}

/// The default sampling is what adding an image without a mip chain has
/// always done (clamped, bilinear, sRGB): it differs only in the filter
/// between mip levels, which without a mip chain is never read, so the two
/// give the same sampler.
pub proof fn the_default_sampling_is_what_adding_an_image_always_did()
    ensures
        ({
            let added = spec_loaded_image(FilterMode::Linear, false);
            let added_sampling = TextureSampling::spec_uniform(
                added.address_mode,
                added.filter,
                added.format == TexelFormat::Rgba8UnormSrgb,
                added.generate_mipmaps,
            );
            &&& default_sampling() == (TextureSampling {
                mipmap_filter: MipmapFilterMode::Linear,
                ..added_sampling
            })
            &&& default_sampling().spec_sampler_settings() == added_sampling.spec_sampler_settings()
        }),
{
}

/// A texture created from one address mode and one filter wraps both axes
/// as that mode does (a mirrored repeat mirrored, a repeat repeated, any
/// other mode clamped to the edge), filters with that filter both ways,
/// builds a mip chain exactly when asked, with a linear blend between its
/// levels, and takes one sample per fetch.
pub proof fn a_uniform_sampling_follows_its_mode_and_filter(
    mode: AddressMode,
    filter: FilterMode,
    srgb: bool,
    generate_mipmaps: bool,
)
    ensures
        ({
            let s = TextureSampling::spec_uniform(mode, filter, srgb, generate_mipmaps);
            &&& s.wrap_u == s.wrap_v
            &&& s.wrap_u == (match mode {
                AddressMode::MirrorRepeat => TextureWrapping::MirroredRepeat,
                AddressMode::Repeat => TextureWrapping::Repeat,
                AddressMode::ClampToEdge => TextureWrapping::ClampToEdge,
                AddressMode::ClampToBorder => TextureWrapping::ClampToEdge,
            })
            &&& s.mag_filter == filter && s.min_filter == filter
            &&& s.mipmaps == generate_mipmaps
            &&& generate_mipmaps ==> s.mipmap_filter == MipmapFilterMode::Linear
            &&& s.srgb == srgb
            &&& s.anisotropy == 1
            &&& !s.premultiply
        }),
{
}

/// A sampler is built with what its sampling asks: both wrappings, the
/// third axis as the first, the magnification and minification filters,
/// the samples per fetch, and with a mip chain the filter between levels;
/// without one the filter between levels is the nearest unless more than
/// one sample per fetch is taken, where it is linear.
pub proof fn a_sampler_keeps_what_its_sampling_asks(s: TextureSampling)
    ensures
        ({
            let settings = s.spec_sampler_settings();
            &&& settings.address_mode_u == s.wrap_u
            &&& settings.address_mode_v == s.wrap_v
            &&& settings.address_mode_w == s.wrap_u
            &&& settings.mag_filter == s.mag_filter
            &&& settings.min_filter == s.min_filter
            &&& settings.anisotropy_clamp == s.anisotropy
            &&& s.mipmaps ==> settings.mipmap_filter == s.mipmap_filter
            &&& !s.mipmaps && s.anisotropy <= 1 ==> settings.mipmap_filter == MipmapFilterMode::Nearest
            &&& !s.mipmaps && s.anisotropy > 1 ==> settings.mipmap_filter == MipmapFilterMode::Linear
        }),
{
}

/// A loaded image is sRGB colour clamped to the edge; an image in a chosen
/// colour space is sRGB exactly when asked, repeated and bilinear; both
/// get a mip chain exactly when asked, and keep the filter given.
pub proof fn plain_textures_keep_what_they_are_asked(
    filter: FilterMode,
    srgb: bool,
    generate_mipmaps: bool,
)
    ensures
        spec_loaded_image(filter, generate_mipmaps).format == TexelFormat::Rgba8UnormSrgb,
        spec_loaded_image(filter, generate_mipmaps).address_mode == AddressMode::ClampToEdge,
        spec_loaded_image(filter, generate_mipmaps).filter == filter,
        spec_loaded_image(filter, generate_mipmaps).generate_mipmaps == generate_mipmaps,
        (spec_in_color_space(srgb, generate_mipmaps).format == TexelFormat::Rgba8UnormSrgb) == srgb,
        spec_in_color_space(srgb, generate_mipmaps).address_mode == AddressMode::Repeat,
        spec_in_color_space(srgb, generate_mipmaps).filter == FilterMode::Linear,
        spec_in_color_space(srgb, generate_mipmaps).generate_mipmaps == generate_mipmaps,
{
}

/// Making a sampling sane a second time changes nothing.
pub proof fn sane_is_idempotent(s: TextureSampling)
    ensures
        s.spec_sane().spec_sane() == s.spec_sane(),
{
}

/// A sampling is left as it is by `sane` exactly when the device accepts it.
pub proof fn sane_fixes_exactly_what_the_device_refuses(s: TextureSampling)
    ensures
        (s.spec_sane() == s) <==> s.device_accepts(),
{
    if s.spec_sane() == s {
        assert(s.spec_sane().device_accepts());
    }
}

/// The default sampling, and every sampling of a texture created from one
/// address mode and one filter, is one the device accepts as it stands.
pub proof fn plain_samplings_are_accepted(
    address_mode: AddressMode,
    filter: FilterMode,
    srgb: bool,
    generate_mipmaps: bool,
)
    ensures
        default_sampling().device_accepts(),
        TextureSampling::spec_uniform(address_mode, filter, srgb, generate_mipmaps).device_accepts(),
{
}

} // verus!
