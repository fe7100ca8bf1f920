//! The texture cache: textures handed out by name, each created at most once.

use std::sync::Arc;
use vstd::prelude::*;
use wgpu::Texture as GpuTexture;

use crate::resource::sampling::{AddressMode, FilterMode, PlainTexture, TexelFormat};

verus! {

#[verifier::external_type_specification]
#[verifier::external_body]
pub struct ExGpuTexture(GpuTexture);

#[verifier::external_type_specification]
#[verifier::external_body]
pub struct ExGpuTextureView(wgpu::TextureView);

#[verifier::external_type_specification]
#[verifier::external_body]
pub struct ExGpuSampler(wgpu::Sampler);

#[verifier::external_type_specification]
#[verifier::external_body]
pub struct ExImageError(image::ImageError);

/// A GPU texture with its view and sampler.
pub struct Texture {
    /// The underlying GPU texture.
    pub texture: GpuTexture,
    /// The texture view for binding.
    pub view: wgpu::TextureView,
    /// The sampler for the texture.
    pub sampler: wgpu::Sampler,
    /// Texture dimensions (width, height).
    pub size: (u32, u32),
    /// Whether the uploaded RGB was multiplied by alpha, so a caller can pick
    /// the blend mode that matches rather than guessing.
    pub premultiplied: bool,
}

/// `Arc::clone` on a texture: another handle to the same texture, which the
/// contract states as the two being equal.
#[verifier::external_body]
fn share(texture: &Arc<Texture>) -> (r: Arc<Texture>)
    ensures
        r == *texture,
{
    Arc::clone(texture)
}

/// The one-texel placeholders bound where a material sets no texture of
/// its own.
#[derive(Clone, Copy, Debug, PartialEq, Eq, Structural)]
pub enum DefaultTexture {
    /// White colour.
    White,
    /// A flat normal map: (128, 128, 255) is the normal (0, 0, 1) in tangent
    /// space.
    NormalMap,
    /// Non-metallic (blue 0) with medium roughness (green 128), as glTF lays
    /// the channels out.
    MetallicRoughness,
    /// White: no occlusion.
    AmbientOcclusion,
    /// Mid-gray; only a placeholder, its value is never read.
    Height,
    /// Black: no emission.
    Emissive,
}

impl DefaultTexture {
    /// The RGBA8 texel of the placeholder.
    pub open spec fn spec_pixel(self) -> Seq<u8> {
        match self {
            DefaultTexture::White => seq![255u8, 255, 255, 255],
            DefaultTexture::NormalMap => seq![128u8, 128, 255, 255],
            DefaultTexture::MetallicRoughness => seq![0u8, 128, 0, 255],
            DefaultTexture::AmbientOcclusion => seq![255u8, 255, 255, 255],
            DefaultTexture::Height => seq![128u8, 128, 128, 255],
            DefaultTexture::Emissive => seq![0u8, 0, 0, 255],
        }
    }

    /// Colour placeholders are sRGB; data placeholders are linear.
    pub open spec fn spec_srgb(self) -> bool {
        match self {
            DefaultTexture::White | DefaultTexture::Emissive => true,
            _ => false,
        }
    }

    /// The RGBA8 texel of the placeholder.
    pub fn pixel(self) -> (r: [u8; 4])
        ensures
            r@ == self.spec_pixel(),
            r@.len() == 4,
            r@[3] == 255,
            self == DefaultTexture::White || self == DefaultTexture::AmbientOcclusion ==> r@ =~= seq![255u8, 255, 255, 255],
            self == DefaultTexture::NormalMap ==> r@ =~= seq![128u8, 128, 255, 255],
            self == DefaultTexture::MetallicRoughness ==> r@ =~= seq![0u8, 128, 0, 255],
            self == DefaultTexture::Height ==> r@ =~= seq![128u8, 128, 128, 255],
            self == DefaultTexture::Emissive ==> r@ =~= seq![0u8, 0, 0, 255],
    {
        let r: [u8; 4] = match self {
            DefaultTexture::White => [255, 255, 255, 255],
            DefaultTexture::NormalMap => [128, 128, 255, 255],
            DefaultTexture::MetallicRoughness => [0, 128, 0, 255],
            DefaultTexture::AmbientOcclusion => [255, 255, 255, 255],
            DefaultTexture::Height => [128, 128, 128, 255],
            DefaultTexture::Emissive => [0, 0, 0, 255],
        };
        assert(r@ =~= self.spec_pixel());
        r
    }

    /// How the placeholder is created: its colour space, repeated, bilinear,
    /// no mip chain.
    pub fn plain(self) -> (r: PlainTexture)
        ensures
            r == (PlainTexture {
                format: if self.spec_srgb() {
                    TexelFormat::Rgba8UnormSrgb
                } else {
                    TexelFormat::Rgba8Unorm
                },
                address_mode: AddressMode::Repeat,
                filter: FilterMode::Linear,
                generate_mipmaps: false,
            }),
    {
        PlainTexture {
            format: if self.srgb() {
                TexelFormat::Rgba8UnormSrgb
            } else {
                TexelFormat::Rgba8Unorm
            },
            address_mode: AddressMode::Repeat,
            filter: FilterMode::Linear,
            generate_mipmaps: false,
        }
    }

    /// Whether the placeholder is colour, stored sRGB-encoded.
    pub fn srgb(self) -> (r: bool)
        ensures
            r == self.spec_srgb(),
            r == (self == DefaultTexture::White || self == DefaultTexture::Emissive),
    {
        match self {
            DefaultTexture::White | DefaultTexture::Emissive => true,
            _ => false,
        }
    }
}

/// An image decoded to RGBA8: `rgba` holds its texels row by row.
pub struct DecodedImage {
    pub width: u32,
    pub height: u32,
    pub rgba: Vec<u8>,
}

/// `image::load_from_memory`, its result converted to RGBA8 by
/// `DynamicImage::to_rgba8`, with the image's `width` and `height`.
///
/// The contract claims only what holds of every image the crate hands
/// back: its RGBA8 buffer holds at least four bytes per texel, as
/// `ImageBuffer::from_raw` checks. It says nothing of which texels come out
/// or when decoding fails: the outcome also depends on the format-detection
/// and decoding hooks registered in the process.
#[verifier::external_body]
fn load_rgba8_from_memory(encoded: &[u8]) -> (r: Result<DecodedImage, image::ImageError>)
    ensures
        r matches Ok(img) ==> img.rgba@.len() >= 4 * img.width * img.height,
{
    match image::load_from_memory(encoded) {
        Ok(img) => Ok(DecodedImage { width: img.width(), height: img.height(), rgba: img.to_rgba8().into_raw() }),
        Err(e) => Err(e),
    }
}

/// Why a texture could not be made.
#[derive(Debug)]
pub enum TextureError {
    /// The bytes are no image the decoder can read.
    InvalidImageData(image::ImageError),
}

/// Decodes an encoded image (PNG or JPEG) to RGBA8: an image whose buffer
/// holds its texels, four bytes each, row by row; or the decoder's error,
/// as `TextureError::InvalidImageData`.
pub fn decode_image(encoded: &[u8]) -> (r: Result<DecodedImage, TextureError>)
    ensures
        r matches Ok(img) ==> img.rgba@.len() >= 4 * img.width * img.height,
{
    match load_rgba8_from_memory(encoded) {
        Ok(img) => Ok(img),
        Err(e) => Err(TextureError::InvalidImageData(e)),
    }
}

/// The textures of a list of named entries, a later entry taking the place
/// of an earlier one of the same name.
pub open spec fn entries_map(entries: Seq<(String, Arc<Texture>)>) -> Map<Seq<char>, Arc<Texture>>
    decreases entries.len(),
{
    if entries.len() == 0 {
        Map::empty()
    } else {
        entries_map(entries.drop_last()).insert(entries.last().0@, entries.last().1)
    }
}

/// No two entries share a name.
pub open spec fn names_distinct(entries: Seq<(String, Arc<Texture>)>) -> bool {
    forall|i: int, j: int|
        0 <= i < j < entries.len() ==> #[trigger] entries[i].0@ != #[trigger] entries[j].0@
}

proof fn lemma_entries_map_lookup(entries: Seq<(String, Arc<Texture>)>, i: int)
    requires
        names_distinct(entries),
        0 <= i < entries.len(),
    ensures
        entries_map(entries).contains_key(entries[i].0@),
        entries_map(entries)[entries[i].0@] == entries[i].1,
    decreases entries.len(),
{
    if i < entries.len() - 1 {
        let rest = entries.drop_last();
        assert(rest[i] == entries[i]);
        assert(names_distinct(rest));
        lemma_entries_map_lookup(rest, i);
        assert(entries[i].0@ != entries[entries.len() - 1].0@);
    }
}

proof fn lemma_entries_map_missing(entries: Seq<(String, Arc<Texture>)>, name: Seq<char>)
    requires
        forall|i: int| 0 <= i < entries.len() ==> #[trigger] entries[i].0@ != name,
    ensures
        !entries_map(entries).contains_key(name),
    decreases entries.len(),
{
    if entries.len() > 0 {
        let rest = entries.drop_last();
        assert forall|i: int| 0 <= i < rest.len() implies #[trigger] rest[i].0@ != name by {
            assert(rest[i] == entries[i]);
        }
        lemma_entries_map_missing(rest, name);
        assert(entries[entries.len() - 1].0@ != name);
    }
}

/// The texture manager.
///
/// It keeps a cache of already-loaded textures, and hands each out by name.
pub struct TextureManager {
    default_texture: Arc<Texture>,
    /// The textures by name, a `Vec` whose names are distinct (the type
    /// invariant) in place of a `HashMap<String, _>`: vstd specifies
    /// `HashMap` only for keys it knows to obey its key model, and `String`
    /// is not among them, so a map keyed by name would prove nothing of
    /// lookups. No `HashMap` form was compiled here.
    textures: Vec<(String, Arc<Texture>)>,
    generate_mipmaps: bool,
}

/// How one call adding a texture under `name` leaves the manager and what
/// it returns: the texture already there, with nothing changed, or else
/// `added`, now registered under `name` with every other entry as it was.
pub open spec fn add_outcome(
    before: TextureManager,
    after: TextureManager,
    name: Seq<char>,
    added: Arc<Texture>,
) -> bool {
    &&& if before.by_name().contains_key(name) {
        &&& added == before.by_name()[name]
        &&& after.by_name() == before.by_name()
    } else {
        after.by_name() == before.by_name().insert(name, added)
    }
    &&& after.default_texture() == before.default_texture()
    &&& after.generates_mipmaps() == before.generates_mipmaps()
}

impl TextureManager {
    #[verifier::type_invariant]
    spec fn entries_distinct(self) -> bool {
        names_distinct(self.textures@)
    }

    /// The registered textures, by name.
    pub closed spec fn by_name(self) -> Map<Seq<char>, Arc<Texture>> {
        entries_map(self.textures@)
    }

    /// The texture handed out when no other is asked for.
    pub closed spec fn default_texture(self) -> Arc<Texture> {
        self.default_texture
    }

    /// Whether textures loaded from now on get a mip chain.
    pub closed spec fn generates_mipmaps(self) -> bool {
        self.generate_mipmaps
    }

    /// Creates a new texture manager, with no texture registered, mipmap
    /// generation off, and `default_texture` (white) as its default.
    pub fn new(default_texture: Arc<Texture>) -> (r: TextureManager)
        ensures
            r.by_name() == Map::<Seq<char>, Arc<Texture>>::empty(),
            r.default_texture() == default_texture,
            !r.generates_mipmaps(),
    {
        TextureManager { default_texture, textures: Vec::new(), generate_mipmaps: false }
    }

    /// Gets the default, completely white, texture.
    pub fn get_default(&self) -> (r: Arc<Texture>)
        ensures
            r == self.default_texture(),
    {
        share(&self.default_texture)
    }

    /// Whether textures loaded from now on get a mip chain.
    pub fn generate_mipmaps(&self) -> (r: bool)
        ensures
            r == self.generates_mipmaps(),
    {
        self.generate_mipmaps
    }

    /// The index of the entry named `name`.
    fn position(&self, name: &str) -> (r: Option<usize>)
        ensures
            match r {
                Some(i) => i < self.textures@.len() && self.textures@[i as int].0@ == name@,
                None => forall|i: int|
                    0 <= i < self.textures@.len() ==> #[trigger] self.textures@[i].0@ != name@,
            },
    {
        let key = name.to_owned();
        let len = self.textures.len();
        let mut i: usize = 0;
        while i < len
            invariant
                len == self.textures@.len(),
                key@ == name@,
                i <= len,
                forall|j: int| 0 <= j < i ==> #[trigger] self.textures@[j].0@ != name@,
            decreases len - i,
        {
            if self.textures[i].0 == key {
                return Some(i);
            }
            i = i + 1;
        }
        None
    }

    /// Get a texture with the specified name. Returns `None` if the texture
    /// is not registered.
    pub fn get(&mut self, name: &str) -> (r: Option<Arc<Texture>>)
        ensures
            *final(self) == *old(self),
            r == (if old(self).by_name().contains_key(name@) {
                Some(old(self).by_name()[name@])
            } else {
                None
            }),
    {
        proof {
            use_type_invariant(&*self);
        }
        match self.position(name) {
            Some(i) => {
                proof {
                    lemma_entries_map_lookup(self.textures@, i as int);
                }
                Some(share(&self.textures[i].1))
            },
            None => {
                proof {
                    lemma_entries_map_missing(self.textures@, name@);
                }
                None
            },
        }
    }

    /// Get a texture (and its size) with the specified name. Returns `None`
    /// if the texture is not registered.
    pub fn get_with_size(&mut self, name: &str) -> (r: Option<(Arc<Texture>, (u32, u32))>)
        ensures
            *final(self) == *old(self),
            r == (if old(self).by_name().contains_key(name@) {
                Some((old(self).by_name()[name@], old(self).by_name()[name@].size))
            } else {
                None
            }),
    {
        match self.get(name) {
            Some(t) => {
                let size = t.size;
                Some((t, size))
            },
            None => None,
        }
    }

    /// The texture registered under `name`, or, if there is none, the one
    /// `make` creates, registered under `name` from then on. If a texture
    /// with the same name exists, `make` is not called and the old texture
    /// is returned.
    pub fn add_with<F: FnOnce() -> Arc<Texture>>(&mut self, name: &str, make: F) -> (r: Arc<Texture>)
        requires
            !old(self).by_name().contains_key(name@) ==> call_requires(make, ()),
        ensures
            add_outcome(*old(self), *final(self), name@, r),
            !old(self).by_name().contains_key(name@) ==> call_ensures(make, (), r),
    {
        proof {
            use_type_invariant(&*self);
        }
        match self.position(name) {
            Some(i) => {
                proof {
                    lemma_entries_map_lookup(self.textures@, i as int);
                }
                share(&self.textures[i].1)
            },
            None => {
                proof {
                    lemma_entries_map_missing(self.textures@, name@);
                }
                let texture = make();
                let mut entries: Vec<(String, Arc<Texture>)> = Vec::new();
                std::mem::swap(&mut entries, &mut self.textures);
                let ghost before = entries@;
                entries.push((name.to_owned(), share(&texture)));
                assert(entries@.drop_last() =~= before);
                self.textures = entries;
                texture
            },
        }
    }

    /// Changes whether textures will have mipmaps generated when they are
    /// loaded; does not affect already loaded textures. Mipmap generation is
    /// disabled by default.
    pub fn set_generate_mipmaps(&mut self, enabled: bool)
        ensures
            final(self).generates_mipmaps() == enabled,
            final(self).by_name() == old(self).by_name(),
            final(self).default_texture() == old(self).default_texture(),
    {
        proof {
            use_type_invariant(&*self);
        }
        self.generate_mipmaps = enabled;
    }
}

/// A texture just added under a name is what that name gives back.
pub proof fn added_texture_is_found(
    before: TextureManager,
    after: TextureManager,
    name: Seq<char>,
    added: Arc<Texture>,
)
    requires
        add_outcome(before, after, name, added),
    ensures
        after.by_name().contains_key(name),
        after.by_name()[name] == added,
{
}

/// Adding under one name leaves every other name as it was.
pub proof fn adding_leaves_other_names(
    before: TextureManager,
    after: TextureManager,
    name: Seq<char>,
    added: Arc<Texture>,
    other: Seq<char>,
)
    requires
        add_outcome(before, after, name, added),
        other != name,
    ensures
        after.by_name().contains_key(other) == before.by_name().contains_key(other),
        before.by_name().contains_key(other) ==> after.by_name()[other] == before.by_name()[other],
{
}

/// A name, once registered, keeps its texture: adding under it again
/// returns the first texture and changes nothing.
pub proof fn adding_twice_keeps_the_first(
    m0: TextureManager,
    m1: TextureManager,
    m2: TextureManager,
    name: Seq<char>,
    first: Arc<Texture>,
    second: Arc<Texture>,
)
    requires
        add_outcome(m0, m1, name, first),
        add_outcome(m1, m2, name, second),
    ensures
        second == first,
        m2.by_name() == m1.by_name(),
{
}

} // verus!
