//! Control state of the GPU backend.
//!
//! The backend owns a device/queue pair and a configured surface at the
//! unverified rim.  This module carries the lifecycle those resources go
//! through — device and queue are acquired together, surface and
//! configuration are installed together, and never the latter before the
//! former — together with the exact surface configuration the backend
//! applies.  The rim performs each acquisition and mirrors its outcome here
//! before touching the resources again.

use vstd::prelude::*;

verus! {

/// GPU backend type.
#[derive(Debug, Clone, Copy, PartialEq, Eq, Structural)]
pub enum BackendType {
    WebGPU,
    WebGL2,
}

/// The surface texture formats the configurations distinguish.  A format
/// outside this set is carried as `Other`.
#[derive(Debug, Clone, Copy, PartialEq, Eq, Structural)]
pub enum TextureFormat {
    Bgra8Unorm,
    Bgra8UnormSrgb,
    Rgba8Unorm,
    Rgba8UnormSrgb,
    Other,
}

/// How frame presentation is paced.
#[derive(Debug, Clone, Copy, PartialEq, Eq, Structural)]
pub enum PresentMode {
    AutoVsync,
    AutoNoVsync,
    Fifo,
    FifoRelaxed,
    Immediate,
    Mailbox,
}

/// How the surface's alpha channel composites with what is behind it.
#[derive(Debug, Clone, Copy, PartialEq, Eq, Structural)]
pub enum CompositeAlphaMode {
    Auto,
    Opaque,
    PreMultiplied,
    PostMultiplied,
    Inherit,
}

/// What the surface's textures may be used for.
#[derive(Debug, Clone, Copy, PartialEq, Eq, Structural)]
pub enum TextureUsage {
    RenderAttachment,
}

/// A surface configuration: the fixed presentation choices plus the
/// surface extent in pixels.
#[derive(Debug, Clone, Copy, PartialEq, Eq, Structural)]
pub struct SurfaceConfig {
    pub usage: TextureUsage,
    pub format: TextureFormat,
    pub width: u32,
    pub height: u32,
    pub present_mode: PresentMode,
    pub alpha_mode: CompositeAlphaMode,
    pub desired_maximum_frame_latency: u32,
}

/// The configuration the backend applies to a surface of the given extent:
/// render-attachment usage, BGRA8 sRGB color, vertical-sync presentation,
/// opaque compositing, and at most two frames in flight.
pub open spec fn spec_backend_config(width: u32, height: u32) -> SurfaceConfig {
    SurfaceConfig {
        usage: TextureUsage::RenderAttachment,
        format: TextureFormat::Bgra8UnormSrgb,
        width,
        height,
        present_mode: PresentMode::Fifo,
        alpha_mode: CompositeAlphaMode::Opaque,
        desired_maximum_frame_latency: 2,
    }
}

/// Why backend initialization failed.
#[derive(Debug, Clone, Copy, PartialEq, Eq, Structural)]
pub enum InitError {
    /// No compatible GPU adapter was found.
    NoAdapter,
    /// The platform rejected device creation.
    DeviceRejected,
}

impl InitError {
    /// A description of the failure.  For a rejected device the rim appends
    /// the platform's own detail.
    pub fn message(&self) -> (m: String)
        ensures
            *self == InitError::NoAdapter ==> m@ == "Failed to find GPU adapter"@,
            *self == InitError::DeviceRejected ==> m@ == "Failed to create device"@,
    {
        match self {
            InitError::NoAdapter => "Failed to find GPU adapter".to_owned(),
            InitError::DeviceRejected => "Failed to create device".to_owned(),
        }
    }
}

/// GPU backend lifecycle state.
#[derive(Debug, Clone, Copy)]
pub struct GPUBackend {
    pub backend_type: BackendType,
    /// True once the device/queue pair is acquired; the two always arrive
    /// together.
    pub device_ready: bool,
    /// The applied surface configuration; present exactly when a surface is
    /// installed, which the backend only allows once the device is ready.
    pub config: Option<SurfaceConfig>,
}

impl GPUBackend {
    /// A surface is only ever configured on a backend whose device is ready.
    pub open spec fn wf(self) -> bool {
        self.config is Some ==> self.device_ready
    }

    /// The backend state after an initialization attempt against the
    /// primary (WebGPU) API.  Initialization succeeds exactly when an
    /// adapter was found and device creation was granted; the documented
    /// fallback to a secondary API is not implemented, so a failure is
    /// reported as an error instead.
    pub fn after_init(adapter_found: bool, device_granted: bool) -> (r: Result<
        GPUBackend,
        InitError,
    >)
        ensures
            r is Ok <==> adapter_found && device_granted,
            r matches Ok(b) ==> b.backend_type == BackendType::WebGPU && b.device_ready
                && b.config is None && b.wf(),
            !adapter_found ==> (r matches Err(e) && e == InitError::NoAdapter),
            adapter_found && !device_granted ==> (r matches Err(e) && e
                == InitError::DeviceRejected),
    {
        if !adapter_found {
            Err(InitError::NoAdapter)
        } else if !device_granted {
            Err(InitError::DeviceRejected)
        } else {
            Ok(
                GPUBackend {
                    backend_type: BackendType::WebGPU,
                    device_ready: true,
                    config: None,
                },
            )
        }
    }

    /// Install the standard configuration for a surface of the given
    /// extent.  Errs, changing nothing, when the device is not ready; calling
    /// again replaces the previous configuration.
    pub fn configure_surface(&mut self, width: u32, height: u32) -> (r: Result<(), String>)
        ensures
            r is Ok <==> old(self).device_ready,
            old(self).device_ready ==> *final(self) == (GPUBackend {
                config: Some(spec_backend_config(width, height)),
                ..*old(self)
            }),
            !old(self).device_ready ==> *final(self) == *old(self) && (r matches Err(m) && m@
                == "Device not initialized"@),
            old(self).wf() ==> final(self).wf(),
    {
        if !self.device_ready {
            return Err("Device not initialized".to_owned());
        }
        self.config = Some(
            SurfaceConfig {
                usage: TextureUsage::RenderAttachment,
                format: TextureFormat::Bgra8UnormSrgb,
                width,
                height,
                present_mode: PresentMode::Fifo,
                alpha_mode: CompositeAlphaMode::Opaque,
                desired_maximum_frame_latency: 2,
            },
        );
        Ok(())
    }

    /// Whether the device may be used.  Errs, descriptively, before
    /// initialization instead of crashing.
    pub fn device(&self) -> (r: Result<(), String>)
        ensures
            r is Ok <==> self.device_ready,
            !self.device_ready ==> (r matches Err(m) && m@ == "Device not initialized"@),
    {
        if self.device_ready {
            Ok(())
        } else {
            Err("Device not initialized".to_owned())
        }
    }

    /// Whether the queue may be used.  Errs, descriptively, before
    /// initialization instead of crashing.
    pub fn queue(&self) -> (r: Result<(), String>)
        ensures
            r is Ok <==> self.device_ready,
            !self.device_ready ==> (r matches Err(m) && m@ == "Queue not initialized"@),
    {
        if self.device_ready {
            Ok(())
        } else {
            Err("Queue not initialized".to_owned())
        }
    }
}

} // verus!
