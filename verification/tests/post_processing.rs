use std::cell::Cell;

use kiss3d_textures::post_processing::post_processing_effect::FormatPipelines;

const SHADER: &str = "
@vertex
fn vs_main(@builtin(vertex_index) i: u32) -> @builtin(position) vec4<f32> {
    return vec4<f32>(f32(i), 0.0, 0.0, 1.0);
}

@fragment
fn fs_main() -> @location(0) vec4<f32> {
    return vec4<f32>(1.0, 0.0, 0.0, 1.0);
}
";

fn pipeline(device: &wgpu::Device, format: wgpu::TextureFormat) -> wgpu::RenderPipeline {
    let module = device.create_shader_module(wgpu::ShaderModuleDescriptor {
        label: None,
        source: wgpu::ShaderSource::Wgsl(SHADER.into()),
    });
    device.create_render_pipeline(&wgpu::RenderPipelineDescriptor {
        label: None,
        layout: None,
        vertex: wgpu::VertexState {
            module: &module,
            entry_point: Some("vs_main"),
            compilation_options: Default::default(),
            buffers: &[],
        },
        primitive: wgpu::PrimitiveState::default(),
        depth_stencil: None,
        multisample: wgpu::MultisampleState::default(),
        fragment: Some(wgpu::FragmentState {
            module: &module,
            entry_point: Some("fs_main"),
            compilation_options: Default::default(),
            targets: &[Some(format.into())],
        }),
        multiview_mask: None,
        cache: None,
    })
}

#[test]
fn each_format_is_built_once_and_kept() {
    let (device, _queue) = wgpu::Device::noop(&wgpu::DeviceDescriptor::default());
    let built = Cell::new(0);
    let mut pipelines = FormatPipelines::new(|format| {
        built.set(built.get() + 1);
        pipeline(&device, format)
    });
    let ldr = pipelines.get(wgpu::TextureFormat::Bgra8UnormSrgb);
    let again = pipelines.get(wgpu::TextureFormat::Bgra8UnormSrgb);
    assert_eq!(built.get(), 1);
    assert!(ldr == again);
    let hdr = pipelines.get(wgpu::TextureFormat::Rgba16Float);
    assert_eq!(built.get(), 2);
    assert!(hdr != ldr);
    let ldr_later = pipelines.get(wgpu::TextureFormat::Bgra8UnormSrgb);
    assert!(ldr_later == ldr);
    assert_eq!(built.get(), 2);
}
