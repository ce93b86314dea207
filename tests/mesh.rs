use jegui::{
    build_mesh, mesh_fits, prepare_frame, FontAtlas, FrameAction, FrameError, Jegui, MeshVertex,
    Primitive, ScreenRect, TextureDelta, WindowEvent, AtlasError, AtlasImage, COLOR_DIVISOR,
    MAX_MESH_VERTICES,
};

type V = (f32, f32, [u8; 4]);
type C = [f32; 4];

fn mesh(count: usize, indices: Vec<u32>, clip: C) -> Primitive<V, C> {
    let vertices = (0..count).map(|i| (i as f32, 0.0, [128, 0, 255, 64])).collect();
    Primitive::Mesh { vertices, indices, clip }
}

fn three_five_two() -> Vec<Primitive<V, C>> {
    vec![
        mesh(3, vec![0, 1, 2], [0.0, 0.0, 1.0, 1.0]),
        mesh(5, vec![0, 1, 2, 2, 3, 4], [1.0, 1.0, 2.0, 2.0]),
        mesh(2, vec![1, 0, 1], [2.0, 2.0, 3.0, 3.0]),
    ]
}

#[test]
fn indices_shift_by_earlier_vertex_counts() {
    let prims = three_five_two();
    assert!(mesh_fits(&prims));
    let out = build_mesh(&prims);
    assert_eq!(out.vertices.len(), 10);
    assert_eq!(out.indices, vec![0, 1, 2, 3, 4, 5, 5, 6, 7, 9, 8, 9]);
    assert!(out.indices.iter().all(|&i| (i as usize) < out.vertices.len()));
    assert_eq!(*out.indices.iter().max().unwrap(), 9);
}

#[test]
fn clip_rect_is_broadcast() {
    let out = build_mesh(&three_five_two());
    assert!(out.vertices[..3].iter().all(|v| v.clip == [0.0, 0.0, 1.0, 1.0]));
    assert!(out.vertices[3..8].iter().all(|v| v.clip == [1.0, 1.0, 2.0, 2.0]));
    assert!(out.vertices[8..].iter().all(|v| v.clip == [2.0, 2.0, 3.0, 3.0]));
    assert_eq!(out.vertices[4], MeshVertex { vertex: (1.0, 0.0, [128, 0, 255, 64]), clip: [1.0, 1.0, 2.0, 2.0] });
}

#[test]
fn callbacks_add_nothing() {
    let prims = vec![
        mesh(2, vec![0, 1], [0.0; 4]),
        Primitive::Callback,
        mesh(1, vec![0], [0.0; 4]),
    ];
    let out = build_mesh(&prims);
    assert_eq!(out.vertices.len(), 3);
    assert_eq!(out.indices, vec![0, 1, 2]);
    let empty: Vec<Primitive<V, C>> = vec![];
    let out = build_mesh(&empty);
    assert!(out.vertices.is_empty() && out.indices.is_empty());
}

#[test]
fn color_channel_halves_at_128() {
    let out = build_mesh(&three_five_two());
    let c = out.vertices[0].vertex.2;
    assert_eq!(c[0], 128);
    assert_eq!(c[0] as f32 / COLOR_DIVISOR as f32, 0.5);
    assert_ne!(c[0] as f32 / COLOR_DIVISOR as f32, 128.0 / 255.0);
    assert_eq!(c[2] as f32 / COLOR_DIVISOR as f32, 255.0 / 256.0);
}

#[test]
fn mesh_fits_limits() {
    assert!(!mesh_fits(&vec![mesh(2, vec![0, 2], [0.0; 4])]));
    assert!(mesh_fits(&vec![mesh(MAX_MESH_VERTICES, vec![65535], [0.0; 4])]));
    assert!(!mesh_fits(&vec![
        mesh(MAX_MESH_VERTICES, vec![], [0.0; 4]),
        mesh(1, vec![0], [0.0; 4]),
    ]));
    let out = build_mesh(&vec![mesh(1, vec![], [0.0; 4]), mesh(MAX_MESH_VERTICES - 1, vec![65534], [0.0; 4])]);
    assert_eq!(out.indices, vec![65535]);
}

#[test]
fn prepare_frame_errors() {
    let mut atlas = FontAtlas::new(2);
    let big = vec![TextureDelta::Font(AtlasImage { width: 3, height: 3, samples: vec![0; 9] })];
    let r = prepare_frame(&mut atlas, &big, &three_five_two());
    assert_eq!(r.err(), Some(FrameError::Atlas(AtlasError::TooLarge { width: 3, height: 3 })));
    let bad = vec![mesh(1, vec![1], [0.0; 4])];
    let r = prepare_frame(&mut atlas, &vec![], &bad);
    assert_eq!(r.err(), Some(FrameError::MeshTooLarge));
}

#[test]
fn two_redraws_without_events_draw_alike() {
    let screen = ScreenRect { min_x: 10, min_y: 10, max_x: 200, max_y: 500 };
    let mut gui: Jegui<(f32, f32)> = Jegui::new((0.0, 0.0), 4096, screen);
    let mut atlas = FontAtlas::new(8);
    let mut counts = Vec::new();
    for cycle in 0..2 {
        assert_eq!(gui.update(WindowEvent::RedrawRequested), FrameAction::Redraw);
        let batch = gui.drain_for_frame();
        assert!(batch.events.is_empty());
        let frame_deltas = if cycle == 0 {
            vec![TextureDelta::Font(AtlasImage { width: 2, height: 2, samples: vec![1, 2, 3, 4] })]
        } else {
            vec![]
        };
        let out = prepare_frame(&mut atlas, &frame_deltas, &three_five_two()).unwrap();
        counts.push(out.indices.len());
    }
    assert_eq!(counts[0], counts[1]);
    assert_eq!(counts[0], 12);
    assert!(gui.drain_for_frame().events.is_empty());
}
