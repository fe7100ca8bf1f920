# kiss3d_textures

The texture side of a small 3D engine, verified with Verus.

- `src/resource/sampling.rs`: how a texture is sampled, and `sane`, which
  takes out what the device would refuse.
- `src/resource/mipmap.rs`: the mip chain built on upload and the texels the
  box filter reads for each texel of the next level.
- `src/resource/pixels.rs`: premultiplied alpha for linear data.
- `src/resource/texture_manager.rs`: the `Texture` handle, the placeholder
  textures, image decoding, and the cache that hands textures out by name.
- `src/post_processing/post_processing_effect.rs`: an effect's pipelines,
  one per colour format.
- `src/event/ime.rs`, `src/window/ios.rs`: input-method events and the
  decisions of the inverted main loop.

`app/` holds what runs on the GPU or the platform: texture upload and
sampler creation through wgpu, the floating-point sRGB transfer used for
sRGB premultiplication and mip averaging, image files, serde forms of the
settings, and the winit event loop.
