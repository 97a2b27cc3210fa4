pub mod backend;
pub mod data;
pub mod renderer;
pub mod scatter;
pub mod shaders;
pub mod window;

pub use backend::{BackendType, GPUBackend};
pub use data::{ChartData, Color, HexColor, Point2D, Vertex};
pub use renderer::{RenderOptions, Renderer};
pub use scatter::ScatterRenderer;
pub use window::RenderWindow;
