//! A bridge between the immediate-mode `egui` user interface and a retained
//! GPU pipeline drawing into a browser canvas.
//!
//! Every frame the interface describes itself anew. The bridge turns that
//! description into vertex and index buffers, keeps one GPU texture in step
//! with the interface's font atlas, and says which GPU command comes next.
//! The GPU itself is never touched here: the host runs each command and
//! reports how it went.

pub mod bridge;
pub mod compositor;
pub mod error;
pub mod mesh;
pub mod texture;
pub mod ui;
pub mod utils;
pub mod vertex;

pub use crate::bridge::EguiLuminance;
pub use crate::vertex::{
    EguiTextureCoords, EguiVertex, EguiVertexColor, EguiVertexPosition, EguiVertexSemantics,
    VertexIndex,
};
