use std::cell::Cell;
use std::io::Cursor;
use std::sync::Arc;

use kiss3d_textures::resource::sampling::{AddressMode, FilterMode, TexelFormat};
use kiss3d_textures::resource::texture_manager::{
    decode_image, DefaultTexture, Texture, TextureError, TextureManager,
};

fn device() -> (wgpu::Device, wgpu::Queue) {
    wgpu::Device::noop(&wgpu::DeviceDescriptor::default())
}

fn texture(device: &wgpu::Device, width: u32, height: u32) -> Arc<Texture> {
    let texture = device.create_texture(&wgpu::TextureDescriptor {
        label: Some("test"),
        size: wgpu::Extent3d { width, height, depth_or_array_layers: 1 },
        mip_level_count: 1,
        sample_count: 1,
        dimension: wgpu::TextureDimension::D2,
        format: wgpu::TextureFormat::Rgba8UnormSrgb,
        usage: wgpu::TextureUsages::TEXTURE_BINDING | wgpu::TextureUsages::COPY_DST,
        view_formats: &[],
    });
    let view = texture.create_view(&wgpu::TextureViewDescriptor::default());
    let sampler = device.create_sampler(&wgpu::SamplerDescriptor::default());
    Arc::new(Texture { texture, view, sampler, size: (width, height), premultiplied: false })
}

#[test]
fn a_new_manager_holds_only_its_default() {
    let (device, _queue) = device();
    let white = texture(&device, 1, 1);
    let mut manager = TextureManager::new(white.clone());
    assert!(Arc::ptr_eq(&manager.get_default(), &white));
    assert!(manager.get("anything").is_none());
    assert!(manager.get_with_size("anything").is_none());
    assert!(!manager.generate_mipmaps());
}

#[test]
fn a_name_already_taken_returns_the_old_texture_and_creates_nothing() {
    let (device, _queue) = device();
    let mut manager = TextureManager::new(texture(&device, 1, 1));
    let made = Cell::new(0);
    let first = manager.add_with("brick", || {
        made.set(made.get() + 1);
        texture(&device, 4, 2)
    });
    let second = manager.add_with("brick", || {
        made.set(made.get() + 1);
        texture(&device, 8, 8)
    });
    assert_eq!(made.get(), 1);
    assert!(Arc::ptr_eq(&first, &second));
    assert_eq!(second.size, (4, 2));
}

#[test]
fn an_added_texture_is_found_with_its_size() {
    let (device, _queue) = device();
    let mut manager = TextureManager::new(texture(&device, 1, 1));
    let brick = manager.add_with("brick", || texture(&device, 4, 2));
    let stone = manager.add_with("stone", || texture(&device, 16, 16));
    assert!(Arc::ptr_eq(&manager.get("brick").unwrap(), &brick));
    assert!(Arc::ptr_eq(&manager.get("stone").unwrap(), &stone));
    let (found, size) = manager.get_with_size("stone").unwrap();
    assert!(Arc::ptr_eq(&found, &stone));
    assert_eq!(size, (16, 16));
    assert!(manager.get("Brick").is_none());
}

#[test]
fn switching_mipmaps_leaves_loaded_textures_alone() {
    let (device, _queue) = device();
    let mut manager = TextureManager::new(texture(&device, 1, 1));
    let brick = manager.add_with("brick", || texture(&device, 4, 2));
    manager.set_generate_mipmaps(true);
    assert!(manager.generate_mipmaps());
    assert!(Arc::ptr_eq(&manager.get("brick").unwrap(), &brick));
    manager.set_generate_mipmaps(false);
    assert!(!manager.generate_mipmaps());
}

#[test]
fn the_placeholders_hold_their_documented_texels() {
    assert_eq!(DefaultTexture::White.pixel(), [255, 255, 255, 255]);
    assert_eq!(DefaultTexture::NormalMap.pixel(), [128, 128, 255, 255]);
    assert_eq!(DefaultTexture::MetallicRoughness.pixel(), [0, 128, 0, 255]);
    assert_eq!(DefaultTexture::AmbientOcclusion.pixel(), [255, 255, 255, 255]);
    assert_eq!(DefaultTexture::Height.pixel(), [128, 128, 128, 255]);
    assert_eq!(DefaultTexture::Emissive.pixel(), [0, 0, 0, 255]);
    assert!(DefaultTexture::White.srgb() && DefaultTexture::Emissive.srgb());
    assert!(!DefaultTexture::NormalMap.srgb() && !DefaultTexture::MetallicRoughness.srgb());
    assert!(!DefaultTexture::AmbientOcclusion.srgb() && !DefaultTexture::Height.srgb());
    let normal = DefaultTexture::NormalMap.plain();
    assert_eq!(normal.format, TexelFormat::Rgba8Unorm);
    assert_eq!(normal.address_mode, AddressMode::Repeat);
    assert_eq!(normal.filter, FilterMode::Linear);
    assert!(!normal.generate_mipmaps);
    assert_eq!(DefaultTexture::Emissive.plain().format, TexelFormat::Rgba8UnormSrgb);
}

#[test]
fn a_decoded_image_holds_four_bytes_per_texel() {
    let source = image::RgbImage::new(3, 2);
    let mut encoded = Cursor::new(Vec::new());
    source.write_to(&mut encoded, image::ImageFormat::Png).unwrap();
    let decoded = decode_image(encoded.get_ref()).unwrap();
    assert_eq!(decoded.rgba.len(), 4 * 3 * 2);
    assert!(decoded.rgba.chunks(4).all(|t| t == [0, 0, 0, 255]));
}

#[test]
fn an_encoded_png_decodes_to_its_texels() {
    let mut source = image::RgbaImage::new(2, 1);
    source.put_pixel(0, 0, image::Rgba([1, 2, 3, 4]));
    source.put_pixel(1, 0, image::Rgba([250, 251, 252, 253]));
    let mut encoded = Cursor::new(Vec::new());
    source.write_to(&mut encoded, image::ImageFormat::Png).unwrap();
    let decoded = decode_image(encoded.get_ref()).unwrap();
    assert_eq!((decoded.width, decoded.height), (2, 1));
    assert_eq!(decoded.rgba, vec![1, 2, 3, 4, 250, 251, 252, 253]);
}

#[test]
fn bytes_that_are_no_image_are_refused() {
    match decode_image(b"not an image at all") {
        Err(TextureError::InvalidImageData(_)) => {}
        Ok(_) => panic!("garbage decoded"),
    }
}
