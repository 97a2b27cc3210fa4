//! The window-driven redraw loop.
//!
//! The driver is a state machine with two states — uninitialized, and
//! running with a live window — advanced by host signals: resume, resize,
//! redraw request, close request.  The unverified rim owns the native
//! window and its GPU resources, feeds each signal to the decision
//! functions here, and performs the actions they return; every decision the
//! loop takes is made in this module.

use vstd::prelude::*;

use crate::backend::{CompositeAlphaMode, PresentMode, SurfaceConfig, TextureFormat, TextureUsage};
use crate::data::ChartData;
use crate::renderer::{ClearColor, FramePlan, RenderPass, Renderer, WindowRenderer, ENC64_ONE};
use crate::scatter::ScatterRenderer;

verus! {

/// Select the surface format for a window: the first sRGB-capable format
/// the surface offers, or the first offered format when none is sRGB.
/// `srgb_flags[i]` says whether the i-th offered format is sRGB; the
/// result is the index of the chosen format.
pub fn select_surface_format(srgb_flags: &Vec<bool>) -> (idx: usize)
    requires
        srgb_flags@.len() > 0,
    ensures
        idx < srgb_flags@.len(),
        srgb_flags@[idx as int] ==> forall|j: int| 0 <= j < idx ==> !srgb_flags@[j],
        !srgb_flags@[idx as int] ==> idx == 0 && forall|j: int|
            0 <= j < srgb_flags@.len() ==> !srgb_flags@[j],
    {
    let mut i: usize = 0;
    while i < srgb_flags.len()
        invariant
            i <= srgb_flags@.len(),
            forall|j: int| 0 <= j < i ==> !srgb_flags@[j],
        decreases srgb_flags@.len() - i,
    {
        if srgb_flags[i] {
            return i;
        }
        i = i + 1;
    }
    0
}

/// The configuration the window driver applies to its surface:
/// render-attachment usage, the selected format, the window extent,
/// vertical-sync presentation, the surface's first composite mode, and at
/// most two frames in flight.
pub open spec fn spec_window_config(
    format: TextureFormat,
    alpha_mode: CompositeAlphaMode,
    width: u32,
    height: u32,
) -> SurfaceConfig {
    SurfaceConfig {
        usage: TextureUsage::RenderAttachment,
        format,
        width,
        height,
        present_mode: PresentMode::Fifo,
        alpha_mode,
        desired_maximum_frame_latency: 2,
    }
}

/// The driver's window state: the applied surface configuration and the
/// scatter renderer drawing into it.  The rim holds the native window,
/// surface, device and queue this state governs.
#[derive(Debug, Clone)]
pub struct RenderWindow {
    pub config: SurfaceConfig,
    pub renderer: ScatterRenderer,
}

impl RenderWindow {
    /// The state after the driver's first resume: the surface is
    /// configured with the selected format and the window extent, and the
    /// renderer is built from the chart data via the direct-resource
    /// contract.
    pub fn new(
        chart_data: ChartData,
        format: TextureFormat,
        alpha_mode: CompositeAlphaMode,
        width: u32,
        height: u32,
    ) -> (w: RenderWindow)
        requires
            chart_data.vertices@.len() <= u32::MAX,
        ensures
            w.config == spec_window_config(format, alpha_mode, width, height),
            w.renderer.spec_target_format() == format,
            w.renderer.pipeline_configured(),
            w.renderer.spec_vertex_count() == chart_data.vertices@.len(),
            w.renderer.spec_buffer() == if chart_data.vertices@.len() > 0 {
                Some(crate::data::spec_chart_words(chart_data.vertices@))
            } else {
                Option::<Seq<u32>>::None
            },
    {
        let config = SurfaceConfig {
            usage: TextureUsage::RenderAttachment,
            format,
            width,
            height,
            present_mode: PresentMode::Fifo,
            alpha_mode,
            desired_maximum_frame_latency: 2,
        };
        let renderer = <ScatterRenderer as WindowRenderer>::new(&config, chart_data);
        RenderWindow { config, renderer }
    }

    /// Plan one frame: a pass cleared to opaque white receives the
    /// renderer's draw commands; the rim acquires the frame, replays the
    /// plan, submits, presents, and immediately requests the next redraw.
    pub fn render(&mut self) -> (plan: FramePlan)
        ensures
            *final(self) == *old(self),
            plan.clear_color == (ClearColor {
                r: ENC64_ONE,
                g: ENC64_ONE,
                b: ENC64_ONE,
                a: ENC64_ONE,
            }),
            plan.commands@ == old(self).renderer.spec_draw_commands(),
    {
        let mut render_pass = RenderPass::new();
        self.renderer.render_to_pass(&mut render_pass);
        FramePlan {
            clear_color: ClearColor { r: ENC64_ONE, g: ENC64_ONE, b: ENC64_ONE, a: ENC64_ONE },
            commands: render_pass.commands,
        }
    }

    /// Accept a resize: a nonzero extent updates the configuration — the
    /// rim then reconfigures the surface — while a zero extent (common
    /// during minimization) is ignored, so the surface is never configured
    /// degenerate.
    pub fn resize(&mut self, width: u32, height: u32) -> (accepted: bool)
        ensures
            accepted == (width > 0 && height > 0),
            accepted ==> *final(self) == (RenderWindow {
                config: SurfaceConfig { width, height, ..old(self).config },
                renderer: old(self).renderer,
            }),
            !accepted ==> *final(self) == *old(self),
    {
        if width > 0 && height > 0 {
            self.config.width = width;
            self.config.height = height;
            true
        } else {
            false
        }
    }
}

/// A host window signal, as the driver classifies it.
#[derive(Debug, Clone, Copy, PartialEq, Eq, Structural)]
pub enum WindowSignal {
    CloseRequested,
    Resized { width: u32, height: u32 },
    RedrawRequested,
    Other,
}

/// An action the rim performs on the driver's behalf.
#[derive(Debug, Clone, Copy, PartialEq, Eq, Structural)]
pub enum DriverAction {
    /// Terminate the event loop.
    Exit,
    /// Forward the new extent to `RenderWindow::resize`.
    Resize { width: u32, height: u32 },
    /// Render one frame from `RenderWindow::render`'s plan.
    RenderFrame,
    /// Ask the host for another redraw, keeping the loop continuous.
    RequestRedraw,
}

/// Whether the driver's first resume creates the window: only when none
/// exists yet and the chart data is still waiting to be consumed.
pub fn should_create_window(has_window: bool, has_chart_data: bool) -> (create: bool)
    ensures
        create == (!has_window && has_chart_data),
{
    !has_window && has_chart_data
}

/// The actions one host signal triggers.  Before the window exists no
/// signal does anything; afterwards a close request ends the loop, a
/// resize is forwarded, and a redraw request renders one frame and then
/// immediately requests the next.
pub fn signal_actions(running: bool, signal: WindowSignal) -> (actions: Vec<DriverAction>)
    ensures
        !running ==> actions@ =~= Seq::<DriverAction>::empty(),
        running ==> actions@ =~= match signal {
            WindowSignal::CloseRequested => seq![DriverAction::Exit],
            WindowSignal::Resized { width, height } => seq![
                DriverAction::Resize { width, height },
            ],
            WindowSignal::RedrawRequested => seq![
                DriverAction::RenderFrame,
                DriverAction::RequestRedraw,
            ],
            WindowSignal::Other => Seq::<DriverAction>::empty(),
        },
{
    let mut actions: Vec<DriverAction> = Vec::new();
    if running {
        match signal {
            WindowSignal::CloseRequested => {
                actions.push(DriverAction::Exit);
            },
            WindowSignal::Resized { width, height } => {
                actions.push(DriverAction::Resize { width, height });
            },
            WindowSignal::RedrawRequested => {
                actions.push(DriverAction::RenderFrame);
                actions.push(DriverAction::RequestRedraw);
            },
            WindowSignal::Other => {},
        }
    }
    actions
}

/// Why acquiring the current frame texture failed.
#[derive(Debug, Clone, Copy, PartialEq, Eq, Structural)]
pub enum SurfaceError {
    Timeout,
    Outdated,
    Lost,
    OutOfMemory,
    Other,
}

/// How the driver answers a failed frame acquisition.
#[derive(Debug, Clone, Copy, PartialEq, Eq, Structural)]
pub enum FrameErrorAction {
    /// Resize to the current window extent, forcing reconfiguration.
    Reconfigure,
    /// Terminate the event loop.
    Exit,
    /// Report the error and keep the loop running.
    Report,
}

/// The driver's frame-failure policy: a lost surface is recovered by
/// reconfiguration, out of memory terminates cleanly, anything else is
/// reported and the loop continues.
pub fn frame_error_response(error: SurfaceError) -> (action: FrameErrorAction)
    ensures
        error == SurfaceError::Lost ==> action == FrameErrorAction::Reconfigure,
        error == SurfaceError::OutOfMemory ==> action == FrameErrorAction::Exit,
        error != SurfaceError::Lost && error != SurfaceError::OutOfMemory ==> action
            == FrameErrorAction::Report,
{
    match error {
        SurfaceError::Lost => FrameErrorAction::Reconfigure,
        SurfaceError::OutOfMemory => FrameErrorAction::Exit,
        _ => FrameErrorAction::Report,
    }
}

} // verus!
