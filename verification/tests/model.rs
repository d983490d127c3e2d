use fur_shell::resources::model::{
    DocumentAsset, IndexAsset, IndexComponent, IndexKind, MeshAsset, Model, ModelError,
    MorphTargetAsset, PrimitiveAsset, Vec2Bits, Vec3Bits,
};

fn v3(t: u32) -> Vec3Bits {
    Vec3Bits { x: t, y: t + 1, z: t + 2 }
}

fn v2(t: u32) -> Vec2Bits {
    Vec2Bits { x: t, y: t + 1 }
}

fn valid_primitive() -> PrimitiveAsset {
    PrimitiveAsset {
        positions: Some(vec![v3(0), v3(10), v3(20)]),
        normals: Some(vec![v3(100), v3(110), v3(120)]),
        tex_coords: Some(vec![v2(200), v2(210), v2(220)]),
        indices: Some(IndexAsset { component: IndexComponent::U16, values: vec![0, 1, 2] }),
        morphs: Vec::new(),
    }
}

fn doc_with(prim: PrimitiveAsset) -> DocumentAsset {
    DocumentAsset { meshes: vec![MeshAsset { primitives: vec![prim] }] }
}

#[test]
fn accepts_single_mesh_single_primitive() {
    let model = Model::from_gltf(doc_with(valid_primitive())).unwrap();
    assert_eq!(model.num_indices(), 3);
    assert_eq!(model.index_format(), IndexKind::Uint16);
    assert_eq!(model.index_buffer().as_slice(), &[0, 1, 2]);
    let vs = model.vertex_buffer();
    assert_eq!(vs.len(), 3);
    assert_eq!(vs[1].position, v3(10));
    assert_eq!(vs[1].normal, v3(110));
    assert_eq!(vs[1].tex_coord, v2(210));
    assert!(model.morph_buffer().is_none());
}

#[test]
fn rejects_empty_document() {
    let doc = DocumentAsset { meshes: Vec::new() };
    assert_eq!(Model::from_gltf(doc).unwrap_err(), ModelError::NoMesh);
}

#[test]
fn rejects_two_meshes() {
    let doc = DocumentAsset {
        meshes: vec![
            MeshAsset { primitives: vec![valid_primitive()] },
            MeshAsset { primitives: vec![valid_primitive()] },
        ],
    };
    assert_eq!(Model::from_gltf(doc).unwrap_err(), ModelError::ExtraMesh);
}

#[test]
fn rejects_no_primitive() {
    let doc = DocumentAsset { meshes: vec![MeshAsset { primitives: Vec::new() }] };
    assert_eq!(Model::from_gltf(doc).unwrap_err(), ModelError::NoPrimitive);
}

#[test]
fn rejects_two_primitives() {
    let doc = DocumentAsset {
        meshes: vec![MeshAsset { primitives: vec![valid_primitive(), valid_primitive()] }],
    };
    assert_eq!(Model::from_gltf(doc).unwrap_err(), ModelError::ExtraPrimitive);
}

#[test]
fn rejects_missing_positions() {
    let mut prim = valid_primitive();
    prim.positions = None;
    assert_eq!(Model::from_gltf(doc_with(prim)).unwrap_err(), ModelError::MissingPositions);
}

#[test]
fn rejects_missing_normals() {
    let mut prim = valid_primitive();
    prim.normals = None;
    assert_eq!(Model::from_gltf(doc_with(prim)).unwrap_err(), ModelError::MissingNormals);
}

#[test]
fn rejects_missing_tex_coords() {
    let mut prim = valid_primitive();
    prim.tex_coords = None;
    assert_eq!(Model::from_gltf(doc_with(prim)).unwrap_err(), ModelError::MissingTexCoords);
}

#[test]
fn rejects_missing_indices() {
    let mut prim = valid_primitive();
    prim.indices = None;
    assert_eq!(Model::from_gltf(doc_with(prim)).unwrap_err(), ModelError::MissingIndices);
}

#[test]
fn rejects_float_indices() {
    let mut prim = valid_primitive();
    prim.indices = Some(IndexAsset { component: IndexComponent::F32, values: vec![0, 1, 2] });
    assert_eq!(Model::from_gltf(doc_with(prim)).unwrap_err(), ModelError::UnsupportedIndexType);
}

#[test]
fn wide_indices_keep_their_format() {
    let mut prim = valid_primitive();
    prim.indices = Some(IndexAsset { component: IndexComponent::U32, values: vec![2, 1, 0] });
    let model = Model::from_gltf(doc_with(prim)).unwrap();
    assert_eq!(model.index_format(), IndexKind::Uint32);
    assert_eq!(model.index_buffer().as_slice(), &[2, 1, 0]);
}

#[test]
fn vertex_count_is_shortest_attribute() {
    let mut prim = valid_primitive();
    prim.tex_coords = Some(vec![v2(200), v2(210)]);
    let model = Model::from_gltf(doc_with(prim)).unwrap();
    assert_eq!(model.vertex_buffer().len(), 2);
}

#[test]
fn morph_pair_is_interleaved() {
    let mut prim = valid_primitive();
    prim.morphs = vec![
        MorphTargetAsset {
            positions: Some(vec![v3(1000), v3(1010)]),
            normals: Some(vec![v3(2000), v3(2010)]),
        },
        MorphTargetAsset {
            positions: Some(vec![v3(3000), v3(3010)]),
            normals: Some(vec![v3(4000), v3(4010)]),
        },
    ];
    let model = Model::from_gltf(doc_with(prim)).unwrap();
    let morphs = model.morph_buffer().as_ref().unwrap();
    assert_eq!(morphs.len(), 2);
    assert_eq!(morphs[1].d0_position, v3(1010));
    assert_eq!(morphs[1].d0_normal, v3(2010));
    assert_eq!(morphs[1].d1_position, v3(3010));
    assert_eq!(morphs[1].d1_normal, v3(4010));
}

#[test]
fn single_morph_target_is_ignored() {
    let mut prim = valid_primitive();
    prim.morphs = vec![MorphTargetAsset {
        positions: Some(vec![v3(1000)]),
        normals: Some(vec![v3(2000)]),
    }];
    let model = Model::from_gltf(doc_with(prim)).unwrap();
    assert!(model.morph_buffer().is_none());
}

#[test]
fn rejects_incomplete_morph_pair() {
    let mut prim = valid_primitive();
    prim.morphs = vec![
        MorphTargetAsset { positions: Some(vec![v3(1000)]), normals: Some(vec![v3(2000)]) },
        MorphTargetAsset { positions: Some(vec![v3(3000)]), normals: None },
    ];
    assert_eq!(
        Model::from_gltf(doc_with(prim)).unwrap_err(),
        ModelError::IncompleteMorphTargets
    );
}
