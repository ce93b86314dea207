use vstd::prelude::*;

verus! {

/// One more than the largest 16-bit index: a frame's mesh holds at most this
/// many vertices.
pub const MAX_MESH_VERTICES: usize = 65536;

/// Vertex color channels reach the shader divided by this, so a channel of
/// 128 becomes exactly one half.
pub const COLOR_DIVISOR: u32 = 256;

/// A clipped draw primitive from the GUI's tessellator. `V` is a source
/// vertex, `C` a clip rectangle.
pub enum Primitive<V, C> {
    /// A triangle mesh: its indices count from its own first vertex.
    Mesh { vertices: Vec<V>, indices: Vec<u32>, clip: C },
    /// A custom paint callback: not drawn.
    Callback,
}

/// A vertex of the frame's mesh: the source vertex with the clip rectangle
/// of its primitive.
#[derive(Clone, Copy, Debug, PartialEq)]
pub struct MeshVertex<V, C> {
    pub vertex: V,
    pub clip: C,
}

/// The frame's mesh: one vertex list and one index list into it.
pub struct MeshBuffers<V, C> {
    pub vertices: Vec<MeshVertex<V, C>>,
    pub indices: Vec<u16>,
}

/// The vertices one primitive contributes.
pub open spec fn primitive_vertices<V, C>(p: Primitive<V, C>) -> Seq<MeshVertex<V, C>> {
    match p {
        Primitive::Mesh { vertices, indices, clip } => vertices@.map_values(|v: V| MeshVertex { vertex: v, clip }),
        Primitive::Callback => Seq::empty(),
    }
}

/// The indices one primitive contributes, shifted by `base`.
pub open spec fn primitive_indices<V, C>(p: Primitive<V, C>, base: int) -> Seq<int> {
    match p {
        Primitive::Mesh { vertices, indices, clip } => indices@.map_values(|i: u32| i as int + base),
        Primitive::Callback => Seq::empty(),
    }
}

/// The concatenated vertices of a primitive list.
pub open spec fn mesh_vertices<V, C>(ps: Seq<Primitive<V, C>>) -> Seq<MeshVertex<V, C>>
    decreases ps.len(),
{
    if ps.len() == 0 {
        Seq::empty()
    } else {
        mesh_vertices(ps.drop_last()) + primitive_vertices(ps.last())
    }
}

/// The concatenated indices of a primitive list: each primitive's indices
/// are shifted by the number of vertices of all the primitives before it.
pub open spec fn mesh_indices<V, C>(ps: Seq<Primitive<V, C>>) -> Seq<int>
    decreases ps.len(),
{
    if ps.len() == 0 {
        Seq::empty()
    } else {
        mesh_indices(ps.drop_last()) + primitive_indices(ps.last(), mesh_vertices(ps.drop_last()).len() as int)
    }
}

/// Every index of a mesh primitive names one of its own vertices.
pub open spec fn primitive_wf<V, C>(p: Primitive<V, C>) -> bool {
    match p {
        Primitive::Mesh { vertices, indices, clip } =>
            forall|j: int| 0 <= j < indices@.len() ==> (#[trigger] indices@[j]) < vertices@.len(),
        Primitive::Callback => true,
    }
}

/// Every primitive is well formed.
pub open spec fn primitives_wf<V, C>(ps: Seq<Primitive<V, C>>) -> bool {
    forall|k: int| 0 <= k < ps.len() ==> primitive_wf(#[trigger] ps[k])
}

/// The primitives are well formed and their vertices fit 16-bit indices.
pub open spec fn primitives_fit<V, C>(ps: Seq<Primitive<V, C>>) -> bool {
    primitives_wf(ps) && mesh_vertices(ps).len() <= MAX_MESH_VERTICES
}

proof fn lemma_prefix_vertices_len<V, C>(ps: Seq<Primitive<V, C>>, k: int)
    requires
        0 <= k <= ps.len(),
    ensures
        mesh_vertices(ps.subrange(0, k)).len() <= mesh_vertices(ps).len(),
    decreases ps.len() - k,
{
    if k == ps.len() {
        assert(ps.subrange(0, k) =~= ps);
    } else {
        lemma_prefix_vertices_len(ps, k + 1);
        assert(ps.subrange(0, k + 1).drop_last() =~= ps.subrange(0, k));
    }
}

/// Every index of the frame's mesh names one of its vertices, when every
/// primitive's indices name its own vertices.
pub proof fn lemma_indices_below_vertex_count<V, C>(ps: Seq<Primitive<V, C>>)
    requires
        primitives_wf(ps),
    ensures
        forall|i: int| 0 <= i < mesh_indices(ps).len()
            ==> 0 <= #[trigger] mesh_indices(ps)[i] < mesh_vertices(ps).len(),
    decreases ps.len(),
{
    if ps.len() > 0 {
        let prev = ps.drop_last();
        assert forall|k: int| 0 <= k < prev.len() implies primitive_wf(#[trigger] prev[k]) by {
            assert(prev[k] == ps[k]);
        }
        lemma_indices_below_vertex_count(prev);
        assert(primitive_wf(ps[ps.len() - 1]));
        let base = mesh_vertices(prev).len() as int;
        let tail = primitive_indices(ps.last(), base);
        assert forall|i: int| 0 <= i < mesh_indices(ps).len()
            implies 0 <= #[trigger] mesh_indices(ps)[i] < mesh_vertices(ps).len() by {
            if i >= mesh_indices(prev).len() {
                let j = i - mesh_indices(prev).len();
                match ps.last() {
                    Primitive::Mesh { vertices, indices, clip } => {
                        assert(indices@[j] < vertices@.len());
                    },
                    Primitive::Callback => {},
                }
            }
        }
    }
}

/// Flattens the GUI's clipped primitives into one vertex list and one 16-bit
/// index list. Each mesh's vertices carry its clip rectangle; each mesh's
/// indices are shifted by the number of vertices before it, so every index
/// names a vertex of the frame's list. Callback primitives add nothing.
pub fn build_mesh<V: Copy, C: Copy>(primitives: &Vec<Primitive<V, C>>) -> (r: MeshBuffers<V, C>)
    requires
        primitives_fit(primitives@),
    ensures
        r.vertices@ == mesh_vertices(primitives@),
        r.indices@.len() == mesh_indices(primitives@).len(),
        forall|i: int| 0 <= i < r.indices@.len() ==> #[trigger] r.indices@[i] as int == mesh_indices(primitives@)[i],
        forall|i: int| 0 <= i < r.indices@.len() ==> (#[trigger] r.indices@[i] as int) < r.vertices@.len(),
{
    let ghost ps = primitives@;
    let mut vertices: Vec<MeshVertex<V, C>> = Vec::new();
    let mut indices: Vec<u16> = Vec::new();
    let mut k: usize = 0;
    while k < primitives.len()
        invariant
            ps == primitives@,
            primitives_fit(ps),
            k <= ps.len(),
            vertices@ == mesh_vertices(ps.subrange(0, k as int)),
            indices@.map_values(|x: u16| x as int) == mesh_indices(ps.subrange(0, k as int)),
        decreases ps.len() - k,
    {
        let ghost prev = ps.subrange(0, k as int);
        proof {
            assert(ps.subrange(0, k + 1).drop_last() =~= prev);
            assert(ps.subrange(0, k + 1).last() == ps[k as int]);
            lemma_prefix_vertices_len(ps, k + 1);
            assert(primitive_wf(ps[k as int]));
        }
        let base: usize = vertices.len();
        match &primitives[k] {
            Primitive::Mesh { vertices: source, indices: source_indices, clip } => {
                let ghost mapped = source@.map_values(|v: V| MeshVertex { vertex: v, clip: *clip });
                let mut j: usize = 0;
                while j < source.len()
                    invariant
                        j <= source@.len(),
                        vertices@ == mesh_vertices(prev) + mapped.subrange(0, j as int),
                        mapped == source@.map_values(|v: V| MeshVertex { vertex: v, clip: *clip }),
                    decreases source@.len() - j,
                {
                    vertices.push(MeshVertex { vertex: source[j], clip: *clip });
                    proof {
                        assert(mapped.subrange(0, j + 1) =~= mapped.subrange(0, j as int).push(mapped[j as int]));
                    }
                    j = j + 1;
                }
                proof {
                    assert(mapped.subrange(0, j as int) =~= mapped);
                }
                let ghost shifted = source_indices@.map_values(|i: u32| i as int + base as int);
                let mut m: usize = 0;
                while m < source_indices.len()
                    invariant
                        m <= source_indices@.len(),
                        base as int == mesh_vertices(prev).len(),
                        base + source@.len() <= MAX_MESH_VERTICES,
                        forall|q: int| 0 <= q < source_indices@.len() ==> (#[trigger] source_indices@[q]) < source@.len(),
                        shifted == source_indices@.map_values(|i: u32| i as int + base as int),
                        indices@.map_values(|x: u16| x as int) == mesh_indices(prev) + shifted.subrange(0, m as int),
                    decreases source_indices@.len() - m,
                {
                    let idx: u32 = source_indices[m];
                    assert(source_indices@[m as int] < source@.len());
                    let value: usize = idx as usize + base;
                    let ghost before = indices@;
                    indices.push(value as u16);
                    proof {
                        assert(indices@.map_values(|x: u16| x as int)
                            =~= before.map_values(|x: u16| x as int).push(value as int));
                        assert(shifted.subrange(0, m + 1) =~= shifted.subrange(0, m as int).push(shifted[m as int]));
                    }
                    m = m + 1;
                }
                proof {
                    assert(shifted.subrange(0, m as int) =~= shifted);
                }
            },
            Primitive::Callback => {},
        }
        k = k + 1;
    }
    proof {
        assert(ps.subrange(0, ps.len() as int) =~= ps);
        lemma_indices_below_vertex_count(ps);
        assert forall|i: int| 0 <= i < indices@.len()
            implies #[trigger] indices@[i] as int == mesh_indices(ps)[i] by {
            assert(indices@.map_values(|x: u16| x as int)[i] == indices@[i] as int);
        }
    }
    MeshBuffers { vertices, indices }
}

/// Whether the primitives can be flattened: every index names a vertex of
/// its own mesh, and all the vertices together fit 16-bit indices.
pub fn mesh_fits<V: Copy, C: Copy>(primitives: &Vec<Primitive<V, C>>) -> (r: bool)
    ensures
        r == primitives_fit(primitives@),
{
    let ghost ps = primitives@;
    let mut total: usize = 0;
    let mut k: usize = 0;
    while k < primitives.len()
        invariant
            ps == primitives@,
            k <= ps.len(),
            total as int == mesh_vertices(ps.subrange(0, k as int)).len(),
            total <= MAX_MESH_VERTICES,
            forall|q: int| 0 <= q < k ==> primitive_wf(#[trigger] ps[q]),
        decreases ps.len() - k,
    {
        proof {
            assert(ps.subrange(0, k + 1).drop_last() =~= ps.subrange(0, k as int));
            assert(ps.subrange(0, k + 1).last() == ps[k as int]);
        }
        match &primitives[k] {
            Primitive::Mesh { vertices, indices, clip } => {
                let count: usize = vertices.len();
                let mut m: usize = 0;
                while m < indices.len()
                    invariant
                        ps == primitives@,
                        k < ps.len(),
                        ps[k as int] == (Primitive::Mesh { vertices: *vertices, indices: *indices, clip: *clip }),
                        m <= indices@.len(),
                        count == vertices@.len(),
                        forall|q: int| 0 <= q < m ==> (#[trigger] indices@[q]) < vertices@.len(),
                    decreases indices@.len() - m,
                {
                    if indices[m] as usize >= count {
                        proof {
                            assert(indices@[m as int] >= vertices@.len());
                            if primitive_wf(ps[k as int]) {
                                assert(ps[k as int]->Mesh_indices@[m as int] < ps[k as int]->Mesh_vertices@.len());
                            }
                        }
                        return false;
                    }
                    m = m + 1;
                }
                if count > MAX_MESH_VERTICES - total {
                    proof {
                        lemma_prefix_vertices_len(ps, k + 1);
                    }
                    return false;
                }
                total = total + count;
            },
            Primitive::Callback => {},
        }
        k = k + 1;
    }
    proof {
        assert(ps.subrange(0, ps.len() as int) =~= ps);
    }
    true
}

} // verus!
