use vstd::prelude::*;

use crate::atlas::{
    atlas_after, delta_fits, deltas_wf, first_misfit, misfit_error, AtlasError, FontAtlas,
    TextureDelta,
};
use crate::mesh::{build_mesh, mesh_fits, mesh_indices, mesh_vertices, primitives_fit, MeshBuffers, Primitive};

verus! {

/// Why a frame could not be prepared.
#[derive(Clone, Copy, Debug, PartialEq, Eq, Structural)]
pub enum FrameError {
    /// A font image does not fit the atlas.
    Atlas(AtlasError),
    /// A primitive's index names no vertex of its mesh, or the frame has more
    /// vertices than 16-bit indices can name.
    MeshTooLarge,
}

/// Prepares one frame from the GUI pass's output: applies the texture
/// updates to the atlas, then flattens the primitives into the frame's mesh.
/// Texture updates are checked first and applied only if all fit; the
/// primitives are checked next.
pub fn prepare_frame<V: Copy, C: Copy>(
    atlas: &mut FontAtlas,
    deltas: &Vec<TextureDelta>,
    primitives: &Vec<Primitive<V, C>>,
) -> (r: Result<MeshBuffers<V, C>, FrameError>)
    requires
        old(atlas).wf(),
        deltas_wf(deltas@),
    ensures
        final(atlas).wf(),
        final(atlas).max_side() == old(atlas).max_side(),
        (r is Err && r->Err_0 is Atlas) <==> !(forall|k: int| 0 <= k < deltas@.len()
            ==> delta_fits(#[trigger] deltas@[k], old(atlas).max_side())),
        r is Err && r->Err_0 is Atlas ==> exists|k: int| #[trigger] first_misfit(deltas@, old(atlas).max_side(), k)
            && r->Err_0 == FrameError::Atlas(misfit_error(deltas@[k])),
        r is Err && r->Err_0 is Atlas ==> final(atlas).atlas_width() == old(atlas).atlas_width()
            && final(atlas).atlas_height() == old(atlas).atlas_height()
            && final(atlas).bytes() == old(atlas).bytes(),
        !(r is Err && r->Err_0 is Atlas) ==> (final(atlas).atlas_width(), final(atlas).atlas_height(), final(atlas).bytes())
            == atlas_after(old(atlas).atlas_width(), old(atlas).atlas_height(), old(atlas).bytes(), old(atlas).max_side(), deltas@),
        r == Err::<MeshBuffers<V, C>, FrameError>(FrameError::MeshTooLarge) <==> (
            !(r is Err && r->Err_0 is Atlas) && !primitives_fit(primitives@)),
        r is Ok ==> r->Ok_0.vertices@ == mesh_vertices(primitives@)
            && r->Ok_0.indices@.len() == mesh_indices(primitives@).len()
            && forall|i: int| 0 <= i < r->Ok_0.indices@.len()
                ==> #[trigger] r->Ok_0.indices@[i] as int == mesh_indices(primitives@)[i],
{
    match atlas.apply_texture_deltas(deltas) {
        Ok(()) => {},
        Err(e) => {
            return Err(FrameError::Atlas(e));
        },
    }
    if !mesh_fits(primitives) {
        return Err(FrameError::MeshTooLarge);
    }
    Ok(build_mesh(primitives))
}

} // verus!
