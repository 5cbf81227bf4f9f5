//! A renderer plugin that turns scene descriptors (materials, geometries,
//! cameras) into the exact sequence of graphics-driver commands a frame needs.
//!
//! The plugin never talks to the driver itself. Every call it decides on is
//! recorded, in order, in its [`Context`]; the host drains that record and
//! performs the calls. What the driver reports back (the interface of a linked
//! program) is handed to the context by the host.

pub mod binding;
pub mod command;
pub mod context;
pub mod geometry;
pub mod gl_geometry;
pub mod gl_material;
pub mod gl_renderer_plugin;
pub mod identity;
pub mod laws;
pub mod material;
pub mod scene;
pub mod state;
pub mod values;

pub use command::Command;
pub use context::Context;
pub use geometry::{AttributeLayout, Geometry};
pub use gl_geometry::GLGeometry;
pub use gl_material::GLMaterial;
pub use gl_renderer_plugin::{GLRendererPlugin, PluginKind};
pub use material::{Blending, CullFace, Material, Shader};
pub use scene::{Camera, CameraManager, Scene, SceneRenderer};
pub use state::{Binding, Pipeline, Program, VertexBuffer};
pub use values::{Rgba, Viewport, ONE_BITS, ZERO_BITS};
