// Renderer and data-structure tests.  Full rendering needs a GPU; these
// exercise the renderer's state, its draw planning and the record layout.

use helion_core::backend::{GPUBackend, SurfaceConfig, TextureFormat};
use helion_core::data::{ChartData, Vertex};
use helion_core::renderer::{DrawCommand, RenderOptions, RenderPass, Renderer, WebRenderer,
    WindowRenderer};
use helion_core::scatter::ScatterRenderer;

fn test_config() -> SurfaceConfig {
    let mut backend = GPUBackend::after_init(true, true).unwrap();
    backend.configure_surface(800, 600).unwrap();
    backend.config.unwrap()
}

#[test]
fn test_scatter_renderer_struct_size() {
    // Ensure ScatterRenderer doesn't accidentally grow too large
    // (performance consideration for stack allocation)
    let size = std::mem::size_of::<ScatterRenderer>();

    // Should be less than 1KB
    assert!(size < 1024, "ScatterRenderer is unexpectedly large: {} bytes", size);
}

#[test]
fn test_empty_chart_data() {
    // Rendering with empty data should be handled gracefully
    let data = ChartData::new(800.0f32.to_bits(), 600.0f32.to_bits());

    assert_eq!(data.vertices.len(), 0);

    // update_data() handles empty data without panicking, clearing the buffer,
    // and the draw then issues no draw command
    let mut renderer = <ScatterRenderer as WindowRenderer>::new(&test_config(), data);
    let empty = ChartData::new(800.0f32.to_bits(), 600.0f32.to_bits());
    WindowRenderer::update_data(&mut renderer, &empty);
    assert_eq!(renderer.vertex_count, 0);
    assert!(renderer.vertex_buffer.is_none());

    let mut pass = RenderPass::new();
    renderer.render_to_pass(&mut pass);
    assert_eq!(pass.commands, vec![DrawCommand::SetPipeline]);
}

#[test]
fn test_large_dataset_structure() {
    // Test that large datasets (1M points) can be created
    // This doesn't test rendering, just data structure capacity
    let size = 1_000_000;
    let x: Vec<u32> = (0..size).map(|i| (i as f32).to_bits()).collect();
    let y: Vec<u32> = (0..size).map(|i| (i as f32).sin().to_bits()).collect();

    let data = ChartData::from_normalized(
        &x,
        &y,
        None,
        None,
        1920.0f32.to_bits(),
        1080.0f32.to_bits(),
    );

    assert_eq!(data.vertices.len(), size);

    // Verify memory layout is compact (important for GPU transfer)
    let vertex_size = std::mem::size_of::<Vertex>();
    assert_eq!(vertex_size, 40); // 2 floats + 4 floats + 1 float + 3 padding = 10 * 4 bytes

    // Total buffer byte size is count * 40, with no truncation
    let words = data.vertex_words();
    assert_eq!(words.len() * 4, size * 40);
}

#[test]
fn test_vertex_alignment() {
    // GPU requires proper alignment - verify our Vertex struct is correctly aligned
    // Check that size is a multiple of 4 bytes (f32 alignment)
    assert_eq!(std::mem::size_of::<Vertex>(), 40);

    // Vertex should be at least 4-byte aligned (f32 requirement)
    let alignment = std::mem::align_of::<Vertex>();
    assert!(alignment >= 4, "Vertex alignment should be at least 4 bytes");
}

#[test]
fn test_vertex_desc_matches_shader_contract() {
    let layout = Vertex::desc();
    assert_eq!(layout.array_stride, 40);
    assert_eq!(layout.attributes.len(), 3);
    assert_eq!(layout.attributes[0].offset, 0);
    assert_eq!(layout.attributes[0].shader_location, 0);
    assert_eq!(layout.attributes[1].offset, 8);
    assert_eq!(layout.attributes[1].shader_location, 1);
    assert_eq!(layout.attributes[2].offset, 24);
    assert_eq!(layout.attributes[2].shader_location, 2);

    // The attributes are packed back to back: each starts where the
    // previous one's bytes end
    assert_eq!(layout.attributes[0].offset + layout.attributes[0].format.size(), 8);
    assert_eq!(layout.attributes[1].offset + layout.attributes[1].format.size(), 24);
    assert!(layout.attributes[2].offset + layout.attributes[2].format.size() <= 40);
}

#[test]
fn test_window_renderer_draws_all_vertices() {
    let x: Vec<u32> = (0..5).map(|i| (i as f32).to_bits()).collect();
    let y: Vec<u32> = (0..5).map(|i| (i as f32).to_bits()).collect();
    let data = ChartData::from_normalized(
        &x,
        &y,
        None,
        None,
        800.0f32.to_bits(),
        600.0f32.to_bits(),
    );

    let mut renderer = <ScatterRenderer as WindowRenderer>::new(&test_config(), data);
    assert_eq!(renderer.vertex_count, 5);

    let mut pass = RenderPass::new();
    renderer.render_to_pass(&mut pass);
    assert_eq!(
        pass.commands,
        vec![
            DrawCommand::SetPipeline,
            DrawCommand::SetVertexBuffer { slot: 0 },
            DrawCommand::Draw { vertex_start: 0, vertex_end: 5, instance_start: 0, instance_end: 1 },
        ]
    );
}

#[test]
fn test_window_renderer_update_replaces_buffer() {
    let empty = ChartData::new(800.0f32.to_bits(), 600.0f32.to_bits());
    let mut renderer = <ScatterRenderer as WindowRenderer>::new(&test_config(), empty);
    assert!(renderer.vertex_buffer.is_none());

    let x: Vec<u32> = vec![0.0f32.to_bits(), 1.0f32.to_bits()];
    let y: Vec<u32> = vec![0.0f32.to_bits(), 1.0f32.to_bits()];
    let data = ChartData::from_normalized(
        &x,
        &y,
        None,
        None,
        800.0f32.to_bits(),
        600.0f32.to_bits(),
    );
    WindowRenderer::update_data(&mut renderer, &data);
    assert_eq!(renderer.vertex_count, 2);
    assert_eq!(renderer.vertex_buffer.as_ref().unwrap().len(), 20);
}

#[test]
fn test_web_renderer_requires_initialized_backend() {
    let uninitialized = GPUBackend {
        backend_type: helion_core::backend::BackendType::WebGPU,
        device_ready: false,
        config: None,
    };
    let r = <ScatterRenderer as WebRenderer>::new(&uninitialized);
    assert_eq!(r.err().unwrap(), "Device not initialized");

    let unconfigured = GPUBackend::after_init(true, true).unwrap();
    let r = <ScatterRenderer as WebRenderer>::new(&unconfigured);
    assert_eq!(r.err().unwrap(), "Backend not configured");
}

#[test]
fn test_web_renderer_render_plan() {
    let mut backend = GPUBackend::after_init(true, true).unwrap();
    backend.configure_surface(640, 480).unwrap();
    let mut renderer = <ScatterRenderer as WebRenderer>::new(&backend).unwrap();

    let x: Vec<u32> = vec![0.0f32.to_bits(), 1.0f32.to_bits(), 2.0f32.to_bits()];
    let y: Vec<u32> = vec![0.0f32.to_bits(), 1.0f32.to_bits(), 2.0f32.to_bits()];
    let data = ChartData::from_normalized(
        &x,
        &y,
        None,
        None,
        640.0f32.to_bits(),
        480.0f32.to_bits(),
    );

    let options = RenderOptions::default();
    let plan = renderer
        .render_with_backend(&backend, &data, &options)
        .unwrap();
    assert_eq!(plan.clear_color, options.clear_color);
    assert_eq!(
        plan.commands,
        vec![
            DrawCommand::SetPipeline,
            DrawCommand::SetVertexBuffer { slot: 0 },
            DrawCommand::Draw { vertex_start: 0, vertex_end: 3, instance_start: 0, instance_end: 1 },
        ]
    );

    // An empty update is a no-op: the old buffer stays
    let empty = ChartData::new(640.0f32.to_bits(), 480.0f32.to_bits());
    WebRenderer::update_data(&mut renderer, &backend, &empty).unwrap();
    assert_eq!(renderer.vertex_count, 3);

    // The pipeline targets the backend's configured surface format
    assert_eq!(renderer.render_pipeline.target_format, TextureFormat::Bgra8UnormSrgb);
}
