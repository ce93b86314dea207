//! Input translation, font-atlas upload and mesh flattening for an
//! immediate-mode GUI drawn through a GPU backend.
//!
//! Window events come in as [`WindowEvent`]s and leave as GUI
//! [`InputEvent`]s, buffered by [`Jegui`] until a frame asks for them; the
//! GUI's font image is copied into the fixed-stride RGBA staging buffer of a
//! [`FontAtlas`]; and the GUI's clipped primitives are flattened by
//! [`build_mesh`] into one vertex list and one 16-bit index list.

mod atlas;
mod events;
mod frame;
mod keys;
mod mesh;
mod translator;

pub use atlas::{
    atlas_after, copy_font_image, delta_fits, deltas_wf, first_misfit, image_fits, in_region,
    misfit_error, sample_index, AtlasError, AtlasImage, FontAtlas, TextureDelta, BYTES_PER_PIXEL,
    MAX_TEXTURE_SIZE,
};
pub use events::{
    action_of, emitted, key_events, lemma_button_after_move, lemma_control_key_drops_text,
    lemma_unmapped_key_forwards_text, next_pointer, surface_side, text_events, FrameAction,
    FrameInputBatch, InputEvent, ScreenRect, WindowEvent,
};
pub use frame::{prepare_frame, FrameError};
pub use keys::{
    is_control_key, key_for_code, key_of_physical, key_table, suppresses_text, Key, KeyCode,
    PhysicalKey,
};
pub use mesh::{
    build_mesh, lemma_indices_below_vertex_count, mesh_fits, mesh_indices, mesh_vertices,
    primitive_indices, primitive_vertices, primitive_wf, primitives_fit, primitives_wf,
    MeshBuffers, MeshVertex, Primitive, COLOR_DIVISOR, MAX_MESH_VERTICES,
};
pub use translator::Jegui;
