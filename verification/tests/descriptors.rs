use pentagon::layout::{VertexFormat, VertexStepMode, vertex_layout};
use pentagon::pipeline::{
    BlendState, COLOR_WRITE_ALL, Face, FrontFace, PolygonMode, PrimitiveTopology, pipeline_plan,
};
use pentagon::render::{CLEAR_A_BITS, CLEAR_B_BITS, CLEAR_G_BITS, CLEAR_R_BITS};
use pentagon::swapchain::{
    PresentMode, SwapchainDescriptor, TextureFormat, USAGE_COPY_DST, USAGE_RENDER_ATTACHMENT,
    USAGE_SAMPLED,
};
use pentagon::texture::{
    AddressMode, BindingResource, BindingType, FilterMode, STAGE_FRAGMENT, TextureDimension,
    TextureError, TextureViewDimension, diffuse_bind_group_entries, diffuse_sampler,
    prepare_texture, texture_bind_group_layout,
};

#[test]
fn vertex_layout_offsets_and_stride() {
    let l = vertex_layout();
    assert_eq!(l.array_stride, 20);
    assert_eq!(l.step_mode, VertexStepMode::Vertex);
    assert_eq!(l.attributes.len(), 2);
    assert_eq!(l.attributes[0].offset, 0);
    assert_eq!(l.attributes[0].shader_location, 0);
    assert_eq!(l.attributes[0].format, VertexFormat::Float32x3);
    assert_eq!(l.attributes[1].offset, 12);
    assert_eq!(l.attributes[1].shader_location, 1);
    assert_eq!(l.attributes[1].format, VertexFormat::Float32x2);
}

#[test]
fn initial_swapchain_descriptor() {
    let d = SwapchainDescriptor::initial(TextureFormat::Bgra8UnormSrgb, 800, 600);
    assert_eq!(d.usage.bits, USAGE_RENDER_ATTACHMENT);
    assert_eq!(d.format, TextureFormat::Bgra8UnormSrgb);
    assert_eq!(d.width, 800);
    assert_eq!(d.height, 600);
    assert_eq!(d.present_mode, PresentMode::Fifo);
}

#[test]
fn resize_is_idempotent() {
    let mut once = SwapchainDescriptor::initial(TextureFormat::Bgra8UnormSrgb, 800, 600);
    once.resize(1024, 768);
    let mut twice = SwapchainDescriptor::initial(TextureFormat::Bgra8UnormSrgb, 800, 600);
    twice.resize(1024, 768);
    twice.resize(1024, 768);
    assert_eq!(once, twice);
    assert_eq!(once.width, 1024);
    assert_eq!(once.height, 768);
    assert_eq!(once.format, TextureFormat::Bgra8UnormSrgb);
    assert_eq!(once.usage.bits, USAGE_RENDER_ATTACHMENT);
    assert_eq!(once.present_mode, PresentMode::Fifo);
}

#[test]
fn clear_color_is_exact() {
    assert_eq!(f64::from_bits(CLEAR_R_BITS), 0.1);
    assert_eq!(f64::from_bits(CLEAR_G_BITS), 0.2);
    assert_eq!(f64::from_bits(CLEAR_B_BITS), 0.3);
    assert_eq!(f64::from_bits(CLEAR_A_BITS), 1.0);
}

#[test]
fn pipeline_fixed_state() {
    let p = pipeline_plan(TextureFormat::Bgra8UnormSrgb);
    assert_eq!(p.vertex_entry_point, "main");
    assert_eq!(p.fragment_entry_point, "main");
    assert_eq!(p.vertex_buffers.len(), 1);
    assert_eq!(p.vertex_buffers[0].array_stride, 20);
    assert_eq!(p.bind_group_layout_slots, 1);
    assert_eq!(p.push_constant_ranges, 0);
    assert_eq!(p.primitive.topology, PrimitiveTopology::TriangleList);
    assert_eq!(p.primitive.strip_index_format, None);
    assert_eq!(p.primitive.front_face, FrontFace::Ccw);
    assert_eq!(p.primitive.cull_mode, Some(Face::Back));
    assert_eq!(p.primitive.polygon_mode, PolygonMode::Fill);
    assert!(!p.primitive.clamp_depth);
    assert!(!p.primitive.conservative);
    assert_eq!(p.color_target.format, TextureFormat::Bgra8UnormSrgb);
    assert_eq!(p.color_target.blend, Some(BlendState::Replace));
    assert_eq!(p.color_target.write_mask, COLOR_WRITE_ALL);
    assert!(!p.has_depth_stencil);
    assert_eq!(p.multisample.count, 1);
    assert_eq!(p.multisample.mask, !0u64);
    assert!(!p.multisample.alpha_to_coverage_enabled);
}

#[test]
fn sampler_modes() {
    let s = diffuse_sampler();
    assert_eq!(s.address_mode_u, AddressMode::ClampToEdge);
    assert_eq!(s.address_mode_v, AddressMode::ClampToEdge);
    assert_eq!(s.address_mode_w, AddressMode::ClampToEdge);
    assert_eq!(s.mag_filter, FilterMode::Linear);
    assert_eq!(s.min_filter, FilterMode::Nearest);
    assert_eq!(s.mipmap_filter, FilterMode::Nearest);
}

#[test]
fn bind_group_layout_is_texture_then_sampler() {
    let entries = texture_bind_group_layout();
    assert_eq!(entries.len(), 2);
    assert_eq!(entries[0].binding, 0);
    assert_eq!(entries[0].visibility, STAGE_FRAGMENT);
    assert_eq!(
        entries[0].ty,
        BindingType::Texture {
            multisampled: false,
            view_dimension: TextureViewDimension::D2,
            filterable: true,
        }
    );
    assert_eq!(entries[1].binding, 1);
    assert_eq!(entries[1].visibility, STAGE_FRAGMENT);
    assert_eq!(entries[1].ty, BindingType::Sampler { comparison: false, filtering: true });

    let group = diffuse_bind_group_entries();
    assert_eq!(group.len(), 2);
    assert_eq!(group[0].binding, 0);
    assert_eq!(group[0].resource, BindingResource::DiffuseTextureView);
    assert_eq!(group[1].binding, 1);
    assert_eq!(group[1].resource, BindingResource::DiffuseSampler);
}

fn encode_png(pixels: &[u8], width: u32, height: u32) -> Vec<u8> {
    let img = image::RgbaImage::from_raw(width, height, pixels.to_vec()).unwrap();
    let mut out = std::io::Cursor::new(Vec::new());
    img.write_to(&mut out, image::ImageFormat::Png).unwrap();
    out.into_inner()
}

#[test]
fn prepare_texture_round_trips_the_pixels() {
    let pixels: [u8; 16] = [
        255, 0, 0, 255, 0, 255, 0, 255, 0, 0, 255, 255, 10, 20, 30, 40,
    ];
    let png = encode_png(&pixels, 2, 2);
    let plan = prepare_texture(&png).unwrap();
    assert_eq!(plan.pixels, pixels.to_vec());
    assert_eq!(plan.descriptor.size.width, 2);
    assert_eq!(plan.descriptor.size.height, 2);
    assert_eq!(plan.descriptor.size.depth_or_array_layers, 1);
    assert_eq!(plan.descriptor.mip_level_count, 1);
    assert_eq!(plan.descriptor.sample_count, 1);
    assert_eq!(plan.descriptor.dimension, TextureDimension::D2);
    assert_eq!(plan.descriptor.format, TextureFormat::Rgba8UnormSrgb);
    assert_eq!(plan.descriptor.usage.bits, USAGE_SAMPLED | USAGE_COPY_DST);
    assert_eq!(plan.layout.offset, 0);
    assert_eq!(plan.layout.bytes_per_row, Some(8));
    assert_eq!(plan.layout.rows_per_image, Some(2));
}

#[test]
fn prepare_texture_wide_row_stride() {
    let pixels: Vec<u8> = (0..3 * 1 * 4).map(|i| i as u8).collect();
    let png = encode_png(&pixels, 3, 1);
    let plan = prepare_texture(&png).unwrap();
    assert_eq!(plan.layout.bytes_per_row, Some(12));
    assert_eq!(plan.layout.rows_per_image, Some(1));
    assert_eq!(plan.pixels, pixels);
}

#[test]
fn prepare_texture_rejects_garbage() {
    let garbage: [u8; 8] = [1, 2, 3, 4, 5, 6, 7, 8];
    assert!(matches!(prepare_texture(&garbage), Err(TextureError::Decode)));
    assert!(matches!(prepare_texture(&[]), Err(TextureError::Decode)));
}
