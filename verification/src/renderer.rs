//! Renderer capability interfaces and the draw-command model.
//!
//! A render pass is modelled as the sequence of commands recorded into it;
//! the unverified rim replays each command, one for one, into the real
//! GPU pass.  One rendering implementation serves two hosts with different
//! resource ownership: `WindowRenderer` for a host that hands the renderer
//! a device and surface configuration directly, and `WebRenderer` for a
//! host that only exposes a `GPUBackend`.  Both extend the minimal
//! `Renderer` contract of recording a draw into an open pass.

use vstd::prelude::*;

use crate::backend::{GPUBackend, TextureFormat};
use crate::data::ChartData;

verus! {

/// The 64-bit double-precision encoding of 0.0.  Clear colors are
/// double-precision on the GPU interface.
pub const ENC64_ZERO: u64 = 0x0000_0000_0000_0000;

/// The 64-bit double-precision encoding of 1.0.
pub const ENC64_ONE: u64 = 0x3FF0_0000_0000_0000;

/// A clear color; each channel is an encoded double-precision value.
#[derive(Debug, Clone, Copy, PartialEq, Eq, Structural)]
pub struct ClearColor {
    pub r: u64,
    pub g: u64,
    pub b: u64,
    pub a: u64,
}

/// Render options shared across all renderer types.
#[derive(Debug, Clone, Copy)]
pub struct RenderOptions {
    pub clear_color: ClearColor,
    /// Encoded single-precision point size; kept for later use.
    pub point_size: u32,
}

impl Default for RenderOptions {
    /// Opaque white clear color and a 2.0 pixel point size.
    fn default() -> (o: RenderOptions)
        ensures
            o.clear_color == (ClearColor {
                r: ENC64_ONE,
                g: ENC64_ONE,
                b: ENC64_ONE,
                a: ENC64_ONE,
            }),
            o.point_size == crate::data::ENC_TWO,
    {
        RenderOptions {
            clear_color: ClearColor { r: ENC64_ONE, g: ENC64_ONE, b: ENC64_ONE, a: ENC64_ONE },
            point_size: crate::data::ENC_TWO,
        }
    }
}

/// One command recorded into a render pass.
#[derive(Debug, Clone, Copy, PartialEq, Eq, Structural)]
pub enum DrawCommand {
    /// Bind the point pipeline.
    SetPipeline,
    /// Bind the vertex buffer to the given slot.
    SetVertexBuffer { slot: u32 },
    /// Draw the vertex range `vertex_start..vertex_end`, instances
    /// `instance_start..instance_end`.
    Draw { vertex_start: u32, vertex_end: u32, instance_start: u32, instance_end: u32 },
}

/// A render pass under recording: the commands issued into it so far.
#[derive(Debug, Clone)]
pub struct RenderPass {
    pub commands: Vec<DrawCommand>,
}

impl RenderPass {
    /// A freshly opened pass with nothing recorded.
    pub fn new() -> (pass: RenderPass)
        ensures
            pass.commands@.len() == 0,
    {
        RenderPass { commands: Vec::new() }
    }
}

/// Everything the rim must do to present one frame: open a pass cleared to
/// `clear_color` on the current surface texture, replay `commands` into it,
/// then submit and present.
#[derive(Debug, Clone)]
pub struct FramePlan {
    pub clear_color: ClearColor,
    pub commands: Vec<DrawCommand>,
}

/// Base renderer contract: record a draw into an already-open render pass.
pub trait Renderer: Sized {
    /// The color target format of the compiled pipeline.
    spec fn spec_target_format(&self) -> TextureFormat;

    /// The compiled pipeline carries this renderer's fixed configuration
    /// for its target format.
    spec fn pipeline_configured(&self) -> bool;

    /// The words of the GPU-resident vertex buffer, if one is held.
    spec fn spec_buffer(&self) -> Option<Seq<u32>>;

    /// How many vertices a draw covers.
    spec fn spec_vertex_count(&self) -> u32;

    /// The commands one draw of this renderer records.
    spec fn spec_draw_commands(&self) -> Seq<DrawCommand>;

    /// Record this renderer's draw commands into the open pass `render_pass`.
    fn render_to_pass(&mut self, render_pass: &mut RenderPass)
        ensures
            *final(self) == *old(self),
            final(render_pass).commands@ == old(render_pass).commands@ + old(
                self,
            ).spec_draw_commands(),
    ;
}

/// Renderer contract for hosts that own their window, device and surface
/// directly and hand them to the renderer.  Construction cannot fail: the
/// host guarantees a valid device.
pub trait WindowRenderer: Renderer {
    /// A renderer for the given surface configuration, holding a buffer
    /// with `chart_data`'s vertex records — or no buffer when the data is
    /// empty.
    fn new(config: &crate::backend::SurfaceConfig, chart_data: ChartData) -> (r: Self)
        requires
            chart_data.vertices@.len() <= u32::MAX,
        ensures
            r.spec_target_format() == config.format,
            r.pipeline_configured(),
            r.spec_vertex_count() == chart_data.vertices@.len(),
            r.spec_buffer() == if chart_data.vertices@.len() > 0 {
                Some(crate::data::spec_chart_words(chart_data.vertices@))
            } else {
                Option::<Seq<u32>>::None
            },
    ;

    /// Replace the vertex buffer wholesale with `chart_data`'s records;
    /// empty data clears the buffer and count to zero.
    fn update_data(&mut self, chart_data: &ChartData)
        requires
            chart_data.vertices@.len() <= u32::MAX,
        ensures
            final(self).spec_target_format() == old(self).spec_target_format(),
            final(self).pipeline_configured() == old(self).pipeline_configured(),
            final(self).spec_vertex_count() == chart_data.vertices@.len(),
            final(self).spec_buffer() == if chart_data.vertices@.len() > 0 {
                Some(crate::data::spec_chart_words(chart_data.vertices@))
            } else {
                Option::<Seq<u32>>::None
            },
    ;
}

/// Renderer contract for hosts that only expose a `GPUBackend`.
/// Construction and updates are fallible: the backend may not have a device
/// or a configured surface yet.
pub trait WebRenderer: Renderer {
    /// A renderer targeting the backend's configured surface format,
    /// holding no buffer yet.
    fn new(backend: &GPUBackend) -> (r: Result<Self, String>)
        ensures
            r is Ok <==> backend.device_ready && backend.config is Some,
            r matches Ok(s) ==> {
                &&& s.spec_target_format() == backend.config->0.format
                &&& s.pipeline_configured()
                &&& s.spec_buffer() is None
                &&& s.spec_vertex_count() == 0
            },
            !backend.device_ready ==> (r matches Err(m) && m@ == "Device not initialized"@),
            backend.device_ready && backend.config is None ==> (r matches Err(m) && m@
                == "Backend not configured"@),
    ;

    /// Replace the vertex buffer with `data`'s records.  Empty data is a
    /// no-op that succeeds; otherwise the backend's device must be ready.
    fn update_data(&mut self, backend: &GPUBackend, data: &ChartData) -> (r: Result<(), String>)
        requires
            data.vertices@.len() <= u32::MAX,
        ensures
            data.vertices@.len() == 0 ==> r is Ok && *final(self) == *old(self),
            data.vertices@.len() > 0 ==> {
                &&& r is Ok <==> backend.device_ready
                &&& backend.device_ready ==> {
                    &&& final(self).spec_target_format() == old(self).spec_target_format()
                    &&& final(self).pipeline_configured() == old(self).pipeline_configured()
                    &&& final(self).spec_vertex_count() == data.vertices@.len()
                    &&& final(self).spec_buffer() == Some(
                        crate::data::spec_chart_words(data.vertices@),
                    )
                }
                &&& !backend.device_ready ==> *final(self) == *old(self) && (r matches Err(m)
                    && m@ == "Device not initialized"@)
            },
    ;

    /// Update the buffer from `data`, then plan the frame: the pass is
    /// cleared to the caller's clear color and receives this renderer's
    /// draw commands.  The rim acquires the surface texture, replays the
    /// plan, submits and presents.  Errs when the backend lacks a ready
    /// device or a configured surface.
    fn render_with_backend(
        &mut self,
        backend: &GPUBackend,
        data: &ChartData,
        options: &RenderOptions,
    ) -> (r: Result<FramePlan, String>)
        requires
            data.vertices@.len() <= u32::MAX,
        ensures
            r is Ok <==> backend.device_ready && backend.config is Some,
            r matches Ok(plan) ==> {
                &&& plan.clear_color == options.clear_color
                &&& plan.commands@ == final(self).spec_draw_commands()
                &&& final(self).spec_target_format() == old(self).spec_target_format()
                &&& final(self).pipeline_configured() == old(self).pipeline_configured()
                &&& data.vertices@.len() > 0 ==> final(self).spec_vertex_count()
                    == data.vertices@.len() && final(self).spec_buffer() == Some(
                    crate::data::spec_chart_words(data.vertices@),
                )
                &&& data.vertices@.len() == 0 ==> *final(self) == *old(self)
            },
            !backend.device_ready ==> *final(self) == *old(self) && (r matches Err(m) && m@
                == "Device not initialized"@),
            backend.device_ready && backend.config is None ==> (r matches Err(m) && m@
                == "Surface not configured"@),
    ;
}

} // verus!
