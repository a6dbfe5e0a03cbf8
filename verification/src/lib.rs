//! Backend-independent logic of a small rendering stack: shader handles that
//! dispatch over graphics backends, the GL ES 2 device bookkeeping, the
//! assembly of egui draw data and the mesh upload bookkeeping of an asset
//! loader.
use vstd::prelude::*;

pub mod shader;
pub mod types;
pub mod text;
pub mod sync;
pub mod gles2;
pub mod push_buffer;
pub mod fnv_map;
pub mod mesh_load_handler;
pub mod egui_draw_data;

verus! {

} // verus!
