//! Mesh assets and their validation.
//!
//! An asset arrives as a decoded transmission-format document: meshes,
//! their primitives, and per-primitive attribute and index arrays,
//! with vertex scalars carried as raw 32-bit components. Exactly one
//! mesh with exactly one primitive is accepted, and the primitive must
//! declare positions, normals, texture coordinates and indices of a
//! supported width; anything else is rejected rather than silently
//! picking a candidate. The accepted arrays are interleaved into the
//! vertex records the GPU consumes, together with an optional pair of
//! morph targets contributing position and normal deltas.

use vstd::prelude::*;

verus! {

/// Three raw 32-bit scalar components; the GPU interprets them.
#[derive(Debug, Clone, Copy, PartialEq, Eq, Structural)]
pub struct Vec3Bits {
    pub x: u32,
    pub y: u32,
    pub z: u32,
}

/// Two raw 32-bit scalar components.
#[derive(Debug, Clone, Copy, PartialEq, Eq, Structural)]
pub struct Vec2Bits {
    pub x: u32,
    pub y: u32,
}

/// One interleaved mesh vertex.
#[derive(Debug, Clone, Copy, PartialEq, Eq, Structural)]
pub struct Vertex {
    pub position: Vec3Bits,
    pub normal: Vec3Bits,
    pub tex_coord: Vec2Bits,
}

/// One interleaved morph record: position and normal deltas of the
/// two morph targets, per vertex.
#[derive(Debug, Clone, Copy, PartialEq, Eq, Structural)]
pub struct Morphs {
    pub d0_position: Vec3Bits,
    pub d0_normal: Vec3Bits,
    pub d1_position: Vec3Bits,
    pub d1_normal: Vec3Bits,
}

/// The scalar type an asset declares for its indices.
#[derive(Debug, Clone, Copy, PartialEq, Eq, Structural)]
pub enum IndexComponent {
    I8,
    U8,
    I16,
    U16,
    U32,
    F32,
}

/// The index widths the renderer supports.
#[derive(Debug, Clone, Copy, PartialEq, Eq, Structural)]
pub enum IndexKind {
    Uint16,
    Uint32,
}

/// Why an asset was rejected.
#[derive(Debug, Clone, Copy, PartialEq, Eq, Structural)]
pub enum ModelError {
    /// The document holds no mesh.
    NoMesh,
    /// The document holds more than one mesh.
    ExtraMesh,
    /// The mesh holds no primitive.
    NoPrimitive,
    /// The mesh holds more than one primitive.
    ExtraPrimitive,
    /// The primitive declares no index array.
    MissingIndices,
    /// The index scalar type is neither 16- nor 32-bit unsigned.
    UnsupportedIndexType,
    /// The primitive lacks the position attribute.
    MissingPositions,
    /// The primitive lacks the normal attribute.
    MissingNormals,
    /// The primitive lacks the texture-coordinate attribute.
    MissingTexCoords,
    /// Two morph targets are present but one misses its position or
    /// normal deltas.
    IncompleteMorphTargets,
}

/// A decoded index array: its declared scalar type and its values.
pub struct IndexAsset {
    pub component: IndexComponent,
    pub values: Vec<u32>,
}

/// One decoded morph target.
pub struct MorphTargetAsset {
    pub positions: Option<Vec<Vec3Bits>>,
    pub normals: Option<Vec<Vec3Bits>>,
}

/// One decoded primitive: its attribute arrays as declared.
pub struct PrimitiveAsset {
    pub positions: Option<Vec<Vec3Bits>>,
    pub normals: Option<Vec<Vec3Bits>>,
    pub tex_coords: Option<Vec<Vec2Bits>>,
    pub indices: Option<IndexAsset>,
    pub morphs: Vec<MorphTargetAsset>,
}

/// One decoded mesh.
pub struct MeshAsset {
    pub primitives: Vec<PrimitiveAsset>,
}

/// A decoded document.
pub struct DocumentAsset {
    pub meshes: Vec<MeshAsset>,
}

/// Whether a morph target carries both delta arrays.
pub open spec fn morph_complete(m: MorphTargetAsset) -> bool {
    m.positions is Some && m.normals is Some
}

/// The rejection a document earns, checked in declaration order, or
/// nothing for an acceptable document.
pub open spec fn spec_error(doc: DocumentAsset) -> Option<ModelError> {
    if doc.meshes@.len() == 0 {
        Some(ModelError::NoMesh)
    } else if doc.meshes@.len() > 1 {
        Some(ModelError::ExtraMesh)
    } else if doc.meshes@[0].primitives@.len() == 0 {
        Some(ModelError::NoPrimitive)
    } else if doc.meshes@[0].primitives@.len() > 1 {
        Some(ModelError::ExtraPrimitive)
    } else {
        let prim = doc.meshes@[0].primitives@[0];
        if prim.indices is None {
            Some(ModelError::MissingIndices)
        } else if !(prim.indices->Some_0.component is U16 || prim.indices->Some_0.component is U32) {
            Some(ModelError::UnsupportedIndexType)
        } else if prim.positions is None {
            Some(ModelError::MissingPositions)
        } else if prim.normals is None {
            Some(ModelError::MissingNormals)
        } else if prim.tex_coords is None {
            Some(ModelError::MissingTexCoords)
        } else if prim.morphs@.len() >= 2
            && !(morph_complete(prim.morphs@[0]) && morph_complete(prim.morphs@[1])) {
            Some(ModelError::IncompleteMorphTargets)
        } else {
            None
        }
    }
}

/// Vertex count of an accepted primitive: the shortest of its three
/// attribute arrays.
pub open spec fn spec_vertex_count(prim: PrimitiveAsset) -> nat {
    let np = prim.positions->Some_0@.len();
    let nn = prim.normals->Some_0@.len();
    let nt = prim.tex_coords->Some_0@.len();
    if np <= nn && np <= nt {
        np
    } else if nn <= nt {
        nn
    } else {
        nt
    }
}

/// Whether an accepted primitive carries a morph pair.
pub open spec fn spec_has_morphs(prim: PrimitiveAsset) -> bool {
    prim.morphs@.len() >= 2
}

/// Morph record count: the shortest of the four delta arrays.
pub open spec fn spec_morph_count(prim: PrimitiveAsset) -> nat {
    let a = prim.morphs@[0].positions->Some_0@.len();
    let b = prim.morphs@[0].normals->Some_0@.len();
    let c = prim.morphs@[1].positions->Some_0@.len();
    let d = prim.morphs@[1].normals->Some_0@.len();
    let ab = if a <= b { a } else { b };
    let cd = if c <= d { c } else { d };
    if ab <= cd { ab } else { cd }
}

/// An immutable mesh: interleaved vertices, the index array with its
/// width, and the optional interleaved morph pair.
#[derive(Debug)]
pub struct Model {
    vertices: Vec<Vertex>,
    indices: Vec<u32>,
    index_kind: IndexKind,
    morphs: Option<Vec<Morphs>>,
}

impl Model {
    pub closed spec fn vertices_view(self) -> Seq<Vertex> {
        self.vertices@
    }

    pub closed spec fn indices_view(self) -> Seq<u32> {
        self.indices@
    }

    pub closed spec fn kind(self) -> IndexKind {
        self.index_kind
    }

    pub closed spec fn morphs_view(self) -> Option<Seq<Morphs>> {
        match self.morphs {
            Some(m) => Some(m@),
            None => None,
        }
    }

    /// The index count fits the draw call's 32-bit range.
    pub open spec fn wf(self) -> bool {
        self.indices_view().len() <= u32::MAX
    }

    /// Validates a decoded document and builds the mesh from its
    /// single primitive: the rejection cases are exactly those of
    /// [`spec_error`], and on acceptance the attribute arrays are
    /// interleaved over the shortest attribute length, the indices
    /// taken as declared, and the morph pair interleaved when present.
    pub fn from_gltf(doc: DocumentAsset) -> (r: Result<Model, ModelError>)
        requires
            doc.meshes@.len() == 1 && doc.meshes@[0].primitives@.len() == 1
                && doc.meshes@[0].primitives@[0].indices is Some
                ==> doc.meshes@[0].primitives@[0].indices->Some_0.values@.len() <= u32::MAX,
        ensures
            r is Err <==> spec_error(doc) is Some,
            r is Err ==> spec_error(doc) == Some(r->Err_0),
            r is Ok ==> ({
                let prim = doc.meshes@[0].primitives@[0];
                let m = r->Ok_0;
                &&& m.wf()
                &&& m.indices_view() == prim.indices->Some_0.values@
                &&& (prim.indices->Some_0.component is U16 ==> m.kind() == IndexKind::Uint16)
                &&& (prim.indices->Some_0.component is U32 ==> m.kind() == IndexKind::Uint32)
                &&& m.vertices_view().len() == spec_vertex_count(prim)
                &&& (forall|i: int| 0 <= i < m.vertices_view().len()
                    ==> m.vertices_view()[i] == (Vertex {
                        position: prim.positions->Some_0@[i],
                        normal: prim.normals->Some_0@[i],
                        tex_coord: prim.tex_coords->Some_0@[i],
                    }))
                &&& (spec_has_morphs(prim) ==> m.morphs_view() is Some
                    && m.morphs_view()->Some_0.len() == spec_morph_count(prim)
                    && (forall|i: int| 0 <= i < m.morphs_view()->Some_0.len()
                        ==> m.morphs_view()->Some_0[i] == (Morphs {
                            d0_position: prim.morphs@[0].positions->Some_0@[i],
                            d0_normal: prim.morphs@[0].normals->Some_0@[i],
                            d1_position: prim.morphs@[1].positions->Some_0@[i],
                            d1_normal: prim.morphs@[1].normals->Some_0@[i],
                        })))
                &&& (!spec_has_morphs(prim) ==> m.morphs_view() is None)
            }),
    {
        let DocumentAsset { meshes } = doc;
        if meshes.len() == 0 {
            return Err(ModelError::NoMesh);
        }
        if meshes.len() > 1 {
            return Err(ModelError::ExtraMesh);
        }
        let mut meshes = meshes;
        let mesh = meshes.remove(0);
        let MeshAsset { primitives } = mesh;
        if primitives.len() == 0 {
            return Err(ModelError::NoPrimitive);
        }
        if primitives.len() > 1 {
            return Err(ModelError::ExtraPrimitive);
        }
        let mut primitives = primitives;
        let prim = primitives.remove(0);
        let ghost prim0 = prim;
        let PrimitiveAsset { positions, normals, tex_coords, indices, morphs } = prim;

        let index_asset = match indices {
            Some(ia) => ia,
            None => {
                return Err(ModelError::MissingIndices);
            },
        };
        let index_kind = match index_asset.component {
            IndexComponent::U16 => IndexKind::Uint16,
            IndexComponent::U32 => IndexKind::Uint32,
            _ => {
                return Err(ModelError::UnsupportedIndexType);
            },
        };
        let pos = match positions {
            Some(p) => p,
            None => {
                return Err(ModelError::MissingPositions);
            },
        };
        let norm = match normals {
            Some(n) => n,
            None => {
                return Err(ModelError::MissingNormals);
            },
        };
        let tex = match tex_coords {
            Some(t) => t,
            None => {
                return Err(ModelError::MissingTexCoords);
            },
        };

        let n = {
            let a = pos.len();
            let b = norm.len();
            let c = tex.len();
            if a <= b && a <= c {
                a
            } else if b <= c {
                b
            } else {
                c
            }
        };
        let mut vertices: Vec<Vertex> = Vec::new();
        let mut i: usize = 0;
        while i < n
            invariant
                n == spec_vertex_count(prim0),
                n <= pos@.len() && n <= norm@.len() && n <= tex@.len(),
                pos@ == prim0.positions->Some_0@,
                norm@ == prim0.normals->Some_0@,
                tex@ == prim0.tex_coords->Some_0@,
                0 <= i <= n,
                vertices@.len() == i,
                forall|j: int| 0 <= j < i ==> vertices@[j] == (Vertex {
                    position: pos@[j],
                    normal: norm@[j],
                    tex_coord: tex@[j],
                }),
            decreases n - i,
        {
            vertices.push(Vertex { position: pos[i], normal: norm[i], tex_coord: tex[i] });
            i = i + 1;
        }

        let morph_records = if morphs.len() >= 2 {
            let complete0 = {
                let m0 = &morphs[0];
                m0.positions.is_some() && m0.normals.is_some()
            };
            let complete1 = {
                let m1 = &morphs[1];
                m1.positions.is_some() && m1.normals.is_some()
            };
            if !(complete0 && complete1) {
                return Err(ModelError::IncompleteMorphTargets);
            }
            let mut morphs = morphs;
            let m0 = morphs.remove(0);
            let m1 = morphs.remove(0);
            let mp0 = match m0.positions {
                Some(v) => v,
                None => {
                    return Err(ModelError::IncompleteMorphTargets);
                },
            };
            let mn0 = match m0.normals {
                Some(v) => v,
                None => {
                    return Err(ModelError::IncompleteMorphTargets);
                },
            };
            let mp1 = match m1.positions {
                Some(v) => v,
                None => {
                    return Err(ModelError::IncompleteMorphTargets);
                },
            };
            let mn1 = match m1.normals {
                Some(v) => v,
                None => {
                    return Err(ModelError::IncompleteMorphTargets);
                },
            };
            let len = {
                let a = mp0.len();
                let b = mn0.len();
                let c = mp1.len();
                let d = mn1.len();
                let ab = if a <= b { a } else { b };
                let cd = if c <= d { c } else { d };
                if ab <= cd {
                    ab
                } else {
                    cd
                }
            };
            let mut records: Vec<Morphs> = Vec::new();
            let mut k: usize = 0;
            while k < len
                invariant
                    len == spec_morph_count(prim0),
                    len <= mp0@.len() && len <= mn0@.len() && len <= mp1@.len()
                        && len <= mn1@.len(),
                    mp0@ == prim0.morphs@[0].positions->Some_0@,
                    mn0@ == prim0.morphs@[0].normals->Some_0@,
                    mp1@ == prim0.morphs@[1].positions->Some_0@,
                    mn1@ == prim0.morphs@[1].normals->Some_0@,
                    0 <= k <= len,
                    records@.len() == k,
                    forall|j: int| 0 <= j < k ==> records@[j] == (Morphs {
                        d0_position: mp0@[j],
                        d0_normal: mn0@[j],
                        d1_position: mp1@[j],
                        d1_normal: mn1@[j],
                    }),
                decreases len - k,
            {
                records.push(Morphs {
                    d0_position: mp0[k],
                    d0_normal: mn0[k],
                    d1_position: mp1[k],
                    d1_normal: mn1[k],
                });
                k = k + 1;
            }
            Some(records)
        } else {
            None
        };

        Ok(Model { vertices, indices: index_asset.values, index_kind, morphs: morph_records })
    }

    /// The interleaved vertex records, in attribute order.
    pub fn vertex_buffer(&self) -> (r: &Vec<Vertex>)
        ensures
            r@ == self.vertices_view(),
    {
        &self.vertices
    }

    /// The index values, in declaration order.
    pub fn index_buffer(&self) -> (r: &Vec<u32>)
        ensures
            r@ == self.indices_view(),
    {
        &self.indices
    }

    /// The interleaved morph records, when the asset carried a pair of
    /// morph targets.
    pub fn morph_buffer(&self) -> (r: &Option<Vec<Morphs>>)
        ensures
            match r {
                Some(m) => self.morphs_view() == Some(m@),
                None => self.morphs_view() is None,
            },
    {
        &self.morphs
    }

    /// How many indices a draw call covers.
    pub fn num_indices(&self) -> (r: u32)
        requires
            self.wf(),
        ensures
            r == self.indices_view().len(),
    {
        self.indices.len() as u32
    }

    /// The width the index values are to be encoded with.
    pub fn index_format(&self) -> (r: IndexKind)
        ensures
            r == self.kind(),
    {
        self.index_kind
    }
}

} // verus!
