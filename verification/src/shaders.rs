//! WGSL shader sources for point rendering.
//!
//! The vertex entry point consumes three attributes whose byte layout must
//! match the vertex record exactly: position (two floats at offset 0,
//! location 0), color (four floats at offset 8, location 1) and size (one
//! float at offset 24, location 2).  `lemma_vertex_record_layout` in the
//! data module pins the record side of that contract.

use vstd::prelude::*;

verus! {

/// Vertex shader with a per-point coordinate output, for circular points.
/// Not bound by the current pipeline; it needs a point-sprite setup.
pub const SCATTER_VERTEX_SHADER: &'static str = r#"
struct VertexInput {
    @location(0) position: vec2<f32>,
    @location(1) color: vec4<f32>,
    @location(2) size: f32,
}

struct VertexOutput {
    @builtin(position) clip_position: vec4<f32>,
    @location(0) color: vec4<f32>,
    @location(1) point_coord: vec2<f32>,
}

@vertex
fn vs_main(vertex: VertexInput) -> VertexOutput {
    var out: VertexOutput;
    out.clip_position = vec4<f32>(vertex.position, 0.0, 1.0);
    out.color = vertex.color;
    out.point_coord = vec2<f32>(0.0, 0.0);
    return out;
}
"#;

/// Fragment shader that shades anti-aliased circular points with a
/// distance field and smoothstep edge.  Not bound by the current pipeline;
/// it pairs with `SCATTER_VERTEX_SHADER`.
pub const SCATTER_FRAGMENT_SHADER: &'static str = r#"
struct VertexOutput {
    @builtin(position) clip_position: vec4<f32>,
    @location(0) color: vec4<f32>,
    @location(1) point_coord: vec2<f32>,
}

@fragment
fn fs_main(in: VertexOutput) -> @location(0) vec4<f32> {
    let center = vec2<f32>(0.5, 0.5);
    let dist = distance(in.point_coord, center);

    let radius = 0.5;
    let alpha = smoothstep(radius, radius - 0.05, dist);

    return vec4<f32>(in.color.rgb, in.color.a * alpha);
}
"#;

/// The vertex shader the pipeline binds: lifts each 2D position into clip
/// space and passes the color through.
pub const SIMPLE_VERTEX_SHADER: &'static str = r#"
struct VertexInput {
    @location(0) position: vec2<f32>,
    @location(1) color: vec4<f32>,
    @location(2) size: f32,
}

struct VertexOutput {
    @builtin(position) clip_position: vec4<f32>,
    @location(0) color: vec4<f32>,
}

@vertex
fn vs_main(vertex: VertexInput) -> VertexOutput {
    var out: VertexOutput;
    out.clip_position = vec4<f32>(vertex.position, 0.0, 1.0);
    out.color = vertex.color;
    return out;
}
"#;

/// The fragment shader the pipeline binds: returns the interpolated color
/// unchanged.
pub const SIMPLE_FRAGMENT_SHADER: &'static str = r#"
struct VertexOutput {
    @builtin(position) clip_position: vec4<f32>,
    @location(0) color: vec4<f32>,
}

@fragment
fn fs_main(in: VertexOutput) -> @location(0) vec4<f32> {
    return in.color;
}
"#;

} // verus!
