//! The scatter plot renderer: one implementation serving both the
//! embedded-window host and the backend-mediated host.
//!
//! The renderer owns the configuration of its compiled pipeline — created
//! once, immutable thereafter — and an optional vertex buffer with its
//! vertex count, replaced wholesale on every data update.  The unverified
//! rim compiles the real pipeline from the configuration computed here and
//! uploads the buffer words computed here.

use vstd::prelude::*;

use crate::backend::{GPUBackend, SurfaceConfig, TextureFormat};
use crate::data::{
    ChartData, Vertex, VertexLayout, VERTEX_STRIDE, WORDS_PER_VERTEX,
};
use crate::renderer::{
    DrawCommand, FramePlan, RenderOptions, RenderPass, Renderer, WebRenderer, WindowRenderer,
};
use crate::shaders::{SIMPLE_FRAGMENT_SHADER, SIMPLE_VERTEX_SHADER};

verus! {

/// How primitives are assembled from the vertex stream.
#[derive(Debug, Clone, Copy, PartialEq, Eq, Structural)]
pub enum PrimitiveTopology {
    PointList,
    LineList,
    TriangleList,
}

/// The configuration of the compiled scatter pipeline: the two shader
/// sources, the vertex buffer layout, the color target and the fixed
/// rasterization choices.
#[derive(Debug, Clone)]
pub struct PipelineDesc {
    pub vertex_shader: &'static str,
    pub fragment_shader: &'static str,
    pub vertex_layout: VertexLayout,
    pub target_format: TextureFormat,
    pub topology: PrimitiveTopology,
    /// Standard alpha blending, so overlapping points composite.
    pub alpha_blending: bool,
    /// No depth/stencil attachment.
    pub depth_stencil: bool,
    /// Single-sample rendering.
    pub sample_count: u32,
    /// All color channels written.
    pub write_mask_all: bool,
}

/// The pipeline configuration the scatter renderer compiles for the given
/// color target format: the point shaders, the vertex record layout, a
/// point-list topology, alpha blending, no depth/stencil, one sample and a
/// full write mask.
pub open spec fn spec_pipeline_for(p: PipelineDesc, format: TextureFormat) -> bool {
    &&& p.vertex_shader@ == SIMPLE_VERTEX_SHADER@
    &&& p.fragment_shader@ == SIMPLE_FRAGMENT_SHADER@
    &&& p.target_format == format
    &&& p.topology == PrimitiveTopology::PointList
    &&& p.alpha_blending
    &&& !p.depth_stencil
    &&& p.sample_count == 1
    &&& p.write_mask_all
    &&& p.vertex_layout.array_stride == VERTEX_STRIDE
    &&& p.vertex_layout.attributes@.len() == 3
    &&& p.vertex_layout.attributes@[0] == (crate::data::VertexAttribute {
        offset: crate::data::POSITION_OFFSET,
        shader_location: 0,
        format: crate::data::AttributeFormat::Float32x2,
    })
    &&& p.vertex_layout.attributes@[1] == (crate::data::VertexAttribute {
        offset: crate::data::COLOR_OFFSET,
        shader_location: 1,
        format: crate::data::AttributeFormat::Float32x4,
    })
    &&& p.vertex_layout.attributes@[2] == (crate::data::VertexAttribute {
        offset: crate::data::SIZE_OFFSET,
        shader_location: 2,
        format: crate::data::AttributeFormat::Float32,
    })
}

fn build_pipeline_desc(format: TextureFormat) -> (p: PipelineDesc)
    ensures
        spec_pipeline_for(p, format),
{
    PipelineDesc {
        vertex_shader: SIMPLE_VERTEX_SHADER,
        fragment_shader: SIMPLE_FRAGMENT_SHADER,
        vertex_layout: Vertex::desc(),
        target_format: format,
        topology: PrimitiveTopology::PointList,
        alpha_blending: true,
        depth_stencil: false,
        sample_count: 1,
        write_mask_all: true,
    }
}

/// Scatter plot renderer; implements the base `Renderer` contract and both
/// of its host-specific extensions.
#[derive(Debug, Clone)]
pub struct ScatterRenderer {
    /// Configuration of the compiled pipeline; the rim realizes it once,
    /// at construction.
    pub render_pipeline: PipelineDesc,
    /// Words of the GPU-resident vertex buffer, replaced wholesale on
    /// every data update; `None` when there is nothing to draw.
    pub vertex_buffer: Option<Vec<u32>>,
    pub vertex_count: u32,
}

impl ScatterRenderer {
    /// A buffer is held exactly when there are vertices, and then it holds
    /// ten words per vertex.
    pub open spec fn wf(self) -> bool {
        match self.vertex_buffer {
            Some(words) => self.vertex_count > 0 && words@.len() == WORDS_PER_VERTEX
                * self.vertex_count,
            None => self.vertex_count == 0,
        }
    }

    /// The renderer's pipeline is configured for its target format.
    pub open spec fn pipeline_wf(self) -> bool {
        spec_pipeline_for(self.render_pipeline, self.render_pipeline.target_format)
    }

}

impl Renderer for ScatterRenderer {
    open spec fn spec_target_format(&self) -> TextureFormat {
        self.render_pipeline.target_format
    }

    open spec fn pipeline_configured(&self) -> bool {
        self.pipeline_wf()
    }

    open spec fn spec_buffer(&self) -> Option<Seq<u32>> {
        match self.vertex_buffer {
            Some(words) => Some(words@),
            None => None,
        }
    }

    open spec fn spec_vertex_count(&self) -> u32 {
        self.vertex_count
    }

    open spec fn spec_draw_commands(&self) -> Seq<DrawCommand> {
        if self.vertex_buffer is Some {
            seq![
                DrawCommand::SetPipeline,
                DrawCommand::SetVertexBuffer { slot: 0 },
                DrawCommand::Draw {
                    vertex_start: 0,
                    vertex_end: self.vertex_count,
                    instance_start: 0,
                    instance_end: 1,
                },
            ]
        } else {
            seq![DrawCommand::SetPipeline]
        }
    }

    /// Bind the pipeline, then — only if a buffer is held — bind it to
    /// slot 0 and draw every vertex once.  With no buffer this renders
    /// nothing, which is not an error.
    fn render_to_pass(&mut self, render_pass: &mut RenderPass) {
        render_pass.commands.push(DrawCommand::SetPipeline);
        match &self.vertex_buffer {
            Some(_) => {
                render_pass.commands.push(DrawCommand::SetVertexBuffer { slot: 0 });
                render_pass.commands.push(
                    DrawCommand::Draw {
                        vertex_start: 0,
                        vertex_end: self.vertex_count,
                        instance_start: 0,
                        instance_end: 1,
                    },
                );
            },
            None => {},
        }
        proof {
            assert(final(render_pass).commands@ =~= old(render_pass).commands@ + old(
                self,
            ).spec_draw_commands());
        }
    }
}

impl WindowRenderer for ScatterRenderer {
    fn new(config: &SurfaceConfig, chart_data: ChartData) -> (r: Self) {
        let vertex_count: u32 = chart_data.vertices.len() as u32;
        let vertex_buffer = if vertex_count > 0 {
            Some(chart_data.vertex_words())
        } else {
            None
        };
        ScatterRenderer {
            render_pipeline: build_pipeline_desc(config.format),
            vertex_buffer,
            vertex_count,
        }
    }

    fn update_data(&mut self, chart_data: &ChartData) {
        if chart_data.vertices.len() > 0 {
            self.vertex_buffer = Some(chart_data.vertex_words());
            self.vertex_count = chart_data.vertices.len() as u32;
        } else {
            self.vertex_buffer = None;
            self.vertex_count = 0;
        }
    }
}

impl WebRenderer for ScatterRenderer {
    fn new(backend: &GPUBackend) -> (r: Result<Self, String>) {
        match backend.device() {
            Err(m) => {
                return Err(m);
            },
            Ok(_) => {},
        }
        let format = match &backend.config {
            Some(config) => config.format,
            None => {
                return Err("Backend not configured".to_owned());
            },
        };
        Ok(
            ScatterRenderer {
                render_pipeline: build_pipeline_desc(format),
                vertex_buffer: None,
                vertex_count: 0,
            },
        )
    }

    fn update_data(&mut self, backend: &GPUBackend, data: &ChartData) -> (r: Result<(), String>) {
        if data.vertices.len() == 0 {
            return Ok(());
        }
        match backend.device() {
            Err(m) => {
                return Err(m);
            },
            Ok(_) => {},
        }
        self.vertex_buffer = Some(data.vertex_words());
        self.vertex_count = data.vertices.len() as u32;
        Ok(())
    }

    fn render_with_backend(
        &mut self,
        backend: &GPUBackend,
        data: &ChartData,
        options: &RenderOptions,
    ) -> (r: Result<FramePlan, String>) {
        match <Self as WebRenderer>::update_data(self, backend, data) {
            Err(m) => {
                return Err(m);
            },
            Ok(_) => {},
        }
        match backend.device() {
            Err(m) => {
                return Err(m);
            },
            Ok(_) => {},
        }
        match backend.queue() {
            Err(m) => {
                return Err(m);
            },
            Ok(_) => {},
        }
        match &backend.config {
            Some(_) => {},
            None => {
                return Err("Surface not configured".to_owned());
            },
        }
        let mut render_pass = RenderPass::new();
        self.render_to_pass(&mut render_pass);
        Ok(FramePlan { clear_color: options.clear_color, commands: render_pass.commands })
    }
}

/// An empty dataset draws nothing: a well-formed renderer holding no
/// vertices records only the pipeline binding — no buffer binding and no
/// draw command — into a pass.
pub proof fn lemma_empty_chart_draws_nothing(r: ScatterRenderer)
    requires
        r.wf(),
        r.spec_vertex_count() == 0,
    ensures
        r.spec_draw_commands() =~= seq![DrawCommand::SetPipeline],
        forall|i: int|
            0 <= i < r.spec_draw_commands().len() ==> !(r.spec_draw_commands()[i] is Draw),
{
}

} // verus!
