//! CPU-side state of a small WebGL rendering scaffold: an integer
//! two-dimensional vector, vertex formats and meshes, the location caches of a
//! shader program, and the classification of context-creation results.

pub mod context;
pub mod geom;
pub mod shader;
pub mod vec;

pub use context::{Context, ContextError};
pub use geom::{AttribBinding, DrawCall, FlushPlan, Mesh, Upload, Vertex, VertexAttrib, VertexFormat};
pub use shader::{Shader, Uniform};
pub use vec::Vec2i;
