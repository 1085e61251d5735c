use std::sync::Mutex;

use scene_builder::builder::RenderCommandListener;
use scene_builder::builder::SceneBuilder;
use scene_builder::builder::SceneBuilderContext;
use scene_builder::gpu_data::AlphaTile;
use scene_builder::gpu_data::Fill;
use scene_builder::gpu_data::RenderCommand;
use scene_builder::gpu_data::SolidTile;
use scene_builder::gpu_data::TileCoords;
use scene_builder::gpu_data::ZBuffer;
use scene_builder::gpu_data::CULL_SENTINEL_BYTE;
use scene_builder::options::PreparedRenderOptions;
use scene_builder::options::RenderOptions;
use scene_builder::scene::Scene;
use scene_builder::scene::TileCoverage;
use scene_builder::scene::TiledObject;
use scene_builder::sort::sort_alpha_tiles;
use scene_builder::MAX_FILLS_PER_BATCH;

use pathfinder_geometry::rect::RectF;
use pathfinder_geometry::vector::Vector2F;

fn prepared_options() -> PreparedRenderOptions {
    let bounds = RectF::new(Vector2F::new(0.0, 0.0), Vector2F::new(64.0, 64.0));
    RenderOptions::default().prepare(bounds)
}

fn coords(x: u16, y: u16) -> TileCoords {
    TileCoords { x, y }
}

fn object(
    fills: Vec<Fill>,
    alpha_tiles: Vec<TileCoverage>,
    solid_tiles: Vec<TileCoords>,
) -> TiledObject {
    TiledObject { fills, alpha_tiles, solid_tiles }
}

fn build(scene: &Scene) -> Vec<RenderCommand> {
    let context = SceneBuilderContext::new();
    let options = prepared_options();
    let builder = SceneBuilder::new(&context, scene, &options);
    builder.build_commands()
}

fn fill(n: u32) -> Fill {
    Fill { px: 0, subpx: n, alpha_tile_index: 0 }
}

#[test]
fn empty_scene_emits_only_clear() {
    let scene = Scene { objects: vec![], view_width: 4, view_height: 4 };
    let cmds = build(&scene);
    assert_eq!(cmds, vec![RenderCommand::ClearMaskFramebuffer]);
}

#[test]
fn first_command_is_clear_exactly_once() {
    let scene = Scene {
        objects: vec![object(
            vec![fill(7)],
            vec![TileCoverage { coords: coords(0, 0), backdrop: 1 }],
            vec![coords(1, 1)],
        )],
        view_width: 4,
        view_height: 4,
    };
    let cmds = build(&scene);
    assert!(matches!(cmds[0], RenderCommand::ClearMaskFramebuffer));
    let clears = cmds
        .iter()
        .filter(|c| matches!(c, RenderCommand::ClearMaskFramebuffer))
        .count();
    assert_eq!(clears, 1);
}

#[test]
fn command_order_fill_solid_alpha() {
    let scene = Scene {
        objects: vec![object(
            vec![fill(1), fill(2)],
            vec![TileCoverage { coords: coords(0, 1), backdrop: 0 }],
            vec![coords(2, 2)],
        )],
        view_width: 4,
        view_height: 4,
    };
    let cmds = build(&scene);
    assert_eq!(cmds.len(), 4);
    assert!(matches!(cmds[0], RenderCommand::ClearMaskFramebuffer));
    assert!(matches!(cmds[1], RenderCommand::Fill(_)));
    assert!(matches!(cmds[2], RenderCommand::SolidTile(_)));
    assert!(matches!(cmds[3], RenderCommand::AlphaTile(_)));
}

#[test]
fn end_to_end_opaque_rect_and_translucent_overlap() {
    // One fully-opaque rectangle covering exactly tiles (0,0)-(1,1), and one
    // translucent object overlapping tile (1,1) painted at a later index.
    let opaque = object(
        vec![],
        vec![],
        vec![coords(0, 0), coords(1, 0), coords(0, 1), coords(1, 1)],
    );
    let translucent = object(
        vec![],
        vec![TileCoverage { coords: coords(1, 1), backdrop: 3 }],
        vec![],
    );
    let scene = Scene { objects: vec![opaque, translucent], view_width: 4, view_height: 4 };
    let cmds = build(&scene);
    assert_eq!(cmds.len(), 3);
    assert!(matches!(cmds[0], RenderCommand::ClearMaskFramebuffer));
    match &cmds[1] {
        RenderCommand::SolidTile(tiles) => {
            let expected = vec![
                SolidTile { tile_x: 0, tile_y: 0, object_index: 0 },
                SolidTile { tile_x: 1, tile_y: 0, object_index: 0 },
                SolidTile { tile_x: 0, tile_y: 1, object_index: 0 },
                SolidTile { tile_x: 1, tile_y: 1, object_index: 0 },
            ];
            assert_eq!(*tiles, expected);
        }
        other => panic!("expected solid tiles, got {:?}", other),
    }
    match &cmds[2] {
        RenderCommand::AlphaTile(tiles) => {
            // Not culled: the translucent object is the topmost at (1,1).
            assert_eq!(tiles.len(), 1);
            assert_eq!(tiles[0].tile_coords(), coords(1, 1));
            assert_eq!(tiles[0].object_index, 1);
            assert_eq!(tiles[0].backdrop, 3);
            assert_ne!(tiles[0].tile_x_lo, CULL_SENTINEL_BYTE);
        }
        other => panic!("expected alpha tiles, got {:?}", other),
    }
}

#[test]
fn culled_alpha_tile_carries_sentinel_and_stays_in_buffer() {
    // Object 0's alpha tile at (0,0) is hidden behind object 1's opaque
    // coverage of the same tile; object 1's own alpha tile stays visible.
    let translucent_below = object(
        vec![],
        vec![TileCoverage { coords: coords(0, 0), backdrop: 2 }],
        vec![],
    );
    let opaque_above = object(
        vec![],
        vec![TileCoverage { coords: coords(1, 0), backdrop: 5 }],
        vec![coords(0, 0)],
    );
    let scene = Scene {
        objects: vec![translucent_below, opaque_above],
        view_width: 4,
        view_height: 4,
    };
    let cmds = build(&scene);
    let alpha = cmds
        .iter()
        .find_map(|c| match c {
            RenderCommand::AlphaTile(tiles) => Some(tiles),
            _ => None,
        })
        .expect("an alpha-tile command");
    // Length preserved: the culled record is overwritten, never removed.
    assert_eq!(alpha.len(), 2);
    let culled = &alpha[0];
    assert_eq!(culled.object_index, 0);
    assert_eq!(culled.tile_x_lo, CULL_SENTINEL_BYTE);
    assert_eq!(culled.tile_y_lo, CULL_SENTINEL_BYTE);
    assert_eq!(culled.tile_hi, CULL_SENTINEL_BYTE);
    assert_eq!(culled.backdrop, 2);
    let visible = &alpha[1];
    assert_eq!(visible.object_index, 1);
    assert_eq!(visible.tile_coords(), coords(1, 0));
}

#[test]
fn z_buffer_highest_index_wins() {
    let below = object(vec![], vec![], vec![coords(0, 0)]);
    let above = object(vec![], vec![], vec![coords(0, 0)]);
    let scene = Scene { objects: vec![below, above], view_width: 2, view_height: 2 };
    let cmds = build(&scene);
    match &cmds[1] {
        RenderCommand::SolidTile(tiles) => {
            assert_eq!(
                *tiles,
                vec![SolidTile { tile_x: 0, tile_y: 0, object_index: 1 }]
            );
        }
        other => panic!("expected solid tiles, got {:?}", other),
    }
}

#[test]
fn z_buffer_test_and_range() {
    let mut z = ZBuffer::new(4, 4);
    z.record_solid(coords(2, 1), 5);
    assert!(z.test(coords(2, 1), 5));
    assert!(z.test(coords(2, 1), 6));
    assert!(!z.test(coords(2, 1), 4));
    assert!(z.test(coords(0, 0), 0));
    assert_eq!(
        z.build_solid_tiles(0, 6),
        vec![SolidTile { tile_x: 2, tile_y: 1, object_index: 5 }]
    );
    assert_eq!(z.build_solid_tiles(0, 5), vec![]);
}

#[test]
fn fill_remainder_not_batch_aligned() {
    let scene = Scene {
        objects: vec![object(
            (0..5).map(fill).collect(),
            vec![],
            vec![],
        )],
        view_width: 4,
        view_height: 4,
    };
    let cmds = build(&scene);
    assert_eq!(cmds.len(), 2);
    match &cmds[1] {
        RenderCommand::Fill(fills) => {
            assert_eq!(fills.len(), 5);
            assert_eq!(*fills, (0..5).map(fill).collect::<Vec<_>>());
        }
        other => panic!("expected a fill command, got {:?}", other),
    }
}

#[test]
fn fill_batch_aligned_emits_no_trailing_fill() {
    let n = MAX_FILLS_PER_BATCH;
    let scene = Scene {
        objects: vec![object((0..n).map(fill).collect(), vec![], vec![])],
        view_width: 4,
        view_height: 4,
    };
    let cmds = build(&scene);
    // One full batch, flushed during tiling; no trailing partial command.
    assert_eq!(cmds.len(), 2);
    match &cmds[1] {
        RenderCommand::Fill(fills) => assert_eq!(fills.len(), n as usize),
        other => panic!("expected a fill command, got {:?}", other),
    }
}

#[test]
fn fill_batch_plus_remainder() {
    let n = MAX_FILLS_PER_BATCH + 3;
    let scene = Scene {
        objects: vec![object((0..n).map(fill).collect(), vec![], vec![])],
        view_width: 4,
        view_height: 4,
    };
    let cmds = build(&scene);
    assert_eq!(cmds.len(), 3);
    match (&cmds[1], &cmds[2]) {
        (RenderCommand::Fill(batch), RenderCommand::Fill(tail)) => {
            assert_eq!(batch.len(), MAX_FILLS_PER_BATCH as usize);
            assert_eq!(batch[0], fill(0));
            assert_eq!(tail.len(), 3);
            assert_eq!(*tail, vec![fill(n - 3), fill(n - 2), fill(n - 1)]);
        }
        other => panic!("expected two fill commands, got {:?}", other),
    }
}

#[test]
fn alpha_tiles_sorted_by_object_index_stably() {
    let tiles = vec![
        AlphaTile::new(coords(0, 0), 10, 2),
        AlphaTile::new(coords(1, 0), 11, 0),
        AlphaTile::new(coords(2, 0), 12, 2),
        AlphaTile::new(coords(3, 0), 13, 1),
        AlphaTile::new(coords(0, 1), 14, 0),
    ];
    let sorted = sort_alpha_tiles(&tiles);
    let keys: Vec<u16> = sorted.iter().map(|t| t.object_index).collect();
    assert_eq!(keys, vec![0, 0, 1, 2, 2]);
    // Stability: same-object records keep their relative buffer order.
    let backdrops: Vec<i8> = sorted.iter().map(|t| t.backdrop).collect();
    assert_eq!(backdrops, vec![11, 14, 13, 10, 12]);
}

#[test]
fn alpha_batch_sorted_after_parallel_interleaving() {
    // Three objects, each with alpha tiles; the emitted batch is ordered by
    // object index whatever the tiling order was.
    let objects: Vec<TiledObject> = (0..3)
        .map(|k| {
            object(
                vec![],
                vec![
                    TileCoverage { coords: coords(k, 0), backdrop: k as i8 },
                    TileCoverage { coords: coords(k, 1), backdrop: (k + 10) as i8 },
                ],
                vec![],
            )
        })
        .collect();
    let scene = Scene { objects, view_width: 4, view_height: 4 };
    let context = SceneBuilderContext::new();
    let options = prepared_options();
    let builder = SceneBuilder::new(&context, &scene, &options);
    let cmds = builder.build_commands_parallel();
    let alpha = cmds
        .iter()
        .find_map(|c| match c {
            RenderCommand::AlphaTile(tiles) => Some(tiles),
            _ => None,
        })
        .expect("an alpha-tile command");
    let keys: Vec<u16> = alpha.iter().map(|t| t.object_index).collect();
    assert_eq!(keys, vec![0, 0, 1, 1, 2, 2]);
    let backdrops: Vec<i8> = alpha.iter().map(|t| t.backdrop).collect();
    assert_eq!(backdrops, vec![0, 10, 1, 11, 2, 12]);
}

#[test]
fn sequential_and_parallel_streams_identical() {
    let objects: Vec<TiledObject> = (0..6)
        .map(|k| {
            object(
                (0..k as u32 * 3).map(fill).collect(),
                vec![TileCoverage { coords: coords(k, k), backdrop: k as i8 }],
                vec![coords(k, 0)],
            )
        })
        .collect();
    let scene = Scene { objects, view_width: 8, view_height: 8 };
    let context = SceneBuilderContext::new();
    let options = prepared_options();
    let builder = SceneBuilder::new(&context, &scene, &options);
    let sequential = builder.build_commands();
    let parallel = builder.build_commands_parallel();
    assert_eq!(sequential, parallel);
}

struct Collector(Mutex<Vec<RenderCommand>>);

impl RenderCommandListener for Collector {
    fn send(&self, command: RenderCommand) {
        self.0.lock().unwrap().push(command);
    }
}

#[test]
fn listener_receives_commands_in_emission_order() {
    let scene = Scene {
        objects: vec![object(
            vec![fill(1)],
            vec![TileCoverage { coords: coords(0, 0), backdrop: 0 }],
            vec![coords(1, 1)],
        )],
        view_width: 4,
        view_height: 4,
    };
    let context = SceneBuilderContext::new();
    let options = prepared_options();
    let mut builder = SceneBuilder::new(&context, &scene, &options);
    let expected = builder.build_commands();
    let collector = Collector(Mutex::new(Vec::new()));
    builder.build_sequentially(&collector);
    assert_eq!(*collector.0.lock().unwrap(), expected);

    let collector = Collector(Mutex::new(Vec::new()));
    builder.build_in_parallel(&collector);
    assert_eq!(*collector.0.lock().unwrap(), expected);
}

#[test]
fn alpha_tile_packing_round_trip() {
    for &(x, y) in &[(0u16, 0u16), (255, 256), (4095, 4095), (300, 17), (4095, 0)] {
        let tile = AlphaTile::new(coords(x, y), -3, 9);
        assert_eq!(tile.tile_coords(), coords(x, y));
        assert_eq!(tile.object_index, 9);
        assert_eq!(tile.backdrop, -3);
    }
    let packed = AlphaTile::new(coords(257, 513), 0, 0);
    assert_eq!(packed.tile_x_lo, 1);
    assert_eq!(packed.tile_y_lo, 1);
    assert_eq!(packed.tile_hi, 0x21);
}

#[test]
fn scene_accessors() {
    let scene = Scene {
        objects: vec![object(vec![], vec![], vec![])],
        view_width: 7,
        view_height: 9,
    };
    assert_eq!(scene.object_count(), 1);
    let options = prepared_options();
    assert_eq!(scene.effective_view_box(&options), (7, 9));
}
