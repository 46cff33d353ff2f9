use moonbase::camera::{
    viewport_to_screen, world_to_grid, CameraView, GridCoord, MoveInput, ScreenPoint, ScrollEvent, ScrollUnit,
    WorldPoint,
};
use moonbase::dialog::{mission_label, DialogOutcome, NewGameDialog};
use moonbase::game_state::{toolbar_tools, GameState, SelectedTool, Tool};
use moonbase::grid::{classify, handle_tile_hover, MapTile, TerrainType, WorldGrid};
use moonbase::mission::Mission;
use moonbase::session::{Session, SessionError};

const FRAME: u64 = 16_667;

fn still() -> MoveInput {
    MoveInput { left: false, right: false, up: false, down: false }
}

fn at_origin(zoom: u64) -> CameraView {
    CameraView { position: WorldPoint { x: 0, y: 0 }, zoom }
}

fn terrain_counts(grid: &WorldGrid) -> [usize; 4] {
    let mut counts = [0usize; 4];
    for tile in &grid.tiles {
        let k = match tile.terrain {
            TerrainType::Flat => 0,
            TerrainType::Rough => 1,
            TerrainType::Crater => 2,
            TerrainType::Mountain => 3,
        };
        counts[k] += 1;
    }
    counts
}

#[test]
fn pan_step_is_exact_on_one_axis() {
    let mut camera = at_origin(1000);
    camera.pan(MoveInput { right: true, ..still() }, FRAME);
    assert_eq!(camera.position, WorldPoint { x: 8333, y: 0 });
    assert_eq!(camera.zoom, 1000);
}

#[test]
fn pan_speed_is_divided_by_zoom() {
    let mut camera = at_origin(500);
    camera.pan(MoveInput { left: true, ..still() }, FRAME);
    assert_eq!(camera.position, WorldPoint { x: -16667, y: 0 });
}

#[test]
fn diagonal_pan_is_normalised() {
    let mut camera = at_origin(1000);
    camera.pan(MoveInput { right: true, up: true, ..still() }, FRAME);
    assert_eq!(camera.position, WorldPoint { x: 5892, y: 5892 });
}

#[test]
fn held_direction_keeps_its_sign_for_many_ticks() {
    let mut camera = at_origin(500);
    for _ in 0..10 {
        camera.pan(MoveInput { up: true, ..still() }, FRAME);
    }
    assert_eq!(camera.position, WorldPoint { x: 0, y: 166_670 });
}

#[test]
fn opposite_flags_cancel_over_many_ticks() {
    let mut camera = at_origin(1000);
    let both = MoveInput { left: true, right: true, up: true, down: true };
    for _ in 0..10 {
        camera.pan(both, FRAME);
        camera.pan(MoveInput { left: true, right: true, ..still() }, FRAME);
    }
    assert_eq!(camera, at_origin(1000));
}

#[test]
fn no_input_leaves_camera_alone() {
    let mut camera = at_origin(700);
    camera.pan(still(), FRAME);
    camera.zoom_by(&Vec::new());
    assert_eq!(camera, at_origin(700));
}

#[test]
fn zoom_steps_by_two_thirds_out_and_half_in() {
    let mut camera = at_origin(500);
    camera.zoom_by(&vec![ScrollEvent { unit: ScrollUnit::Line, hundredths: 100 }]);
    assert_eq!(camera.zoom, 333);
    let mut camera = at_origin(500);
    camera.zoom_by(&vec![ScrollEvent { unit: ScrollUnit::Line, hundredths: -900 }]);
    assert_eq!(camera.zoom, 750);
}

#[test]
fn zoom_is_clamped_at_both_bounds() {
    let mut camera = at_origin(110);
    camera.zoom_by(&vec![ScrollEvent { unit: ScrollUnit::Line, hundredths: 200 }]);
    assert_eq!(camera.zoom, 100);
    let mut camera = at_origin(4500);
    camera.zoom_by(&vec![ScrollEvent { unit: ScrollUnit::Line, hundredths: -200 }]);
    assert_eq!(camera.zoom, 5000);
    for _ in 0..50 {
        camera.zoom_by(&vec![ScrollEvent { unit: ScrollUnit::Pixel, hundredths: i32::MAX }]);
        assert!(camera.zoom >= 100 && camera.zoom <= 5000);
    }
    for _ in 0..50 {
        camera.zoom_by(&vec![ScrollEvent { unit: ScrollUnit::Line, hundredths: i32::MIN }]);
        assert!(camera.zoom >= 100 && camera.zoom <= 5000);
    }
    assert_eq!(camera.zoom, 5000);
}

#[test]
fn zoom_uses_the_net_of_the_whole_batch() {
    let mut camera = at_origin(500);
    camera.zoom_by(&vec![
        ScrollEvent { unit: ScrollUnit::Pixel, hundredths: 5000 },
        ScrollEvent { unit: ScrollUnit::Line, hundredths: -100 },
    ]);
    assert_eq!(camera.zoom, 750);
    let mut camera = at_origin(500);
    camera.zoom_by(&vec![
        ScrollEvent { unit: ScrollUnit::Pixel, hundredths: 5000 },
        ScrollEvent { unit: ScrollUnit::Pixel, hundredths: 5000 },
        ScrollEvent { unit: ScrollUnit::Line, hundredths: -100 },
    ]);
    assert_eq!(camera.zoom, 500);
    let mut camera = at_origin(500);
    let many: Vec<ScrollEvent> =
        (0..1000).map(|_| ScrollEvent { unit: ScrollUnit::Line, hundredths: 300 }).collect();
    camera.zoom_by(&many);
    assert_eq!(camera.zoom, 333);
}

#[test]
fn world_to_screen_and_back_returns_the_point() {
    let camera = CameraView { position: WorldPoint { x: 320_000, y: 320_000 }, zoom: 500 };
    let p = WorldPoint { x: 1234, y: -776 };
    let s = camera.world_to_screen(p);
    assert_eq!(s, ScreenPoint { x: -159_383, y: -160_388 });
    assert_eq!(camera.screen_to_world(s), p);

    let camera = CameraView { position: WorldPoint { x: 0, y: 0 }, zoom: 1000 };
    let half = WorldPoint { x: 500, y: -500 };
    assert_eq!(camera.world_to_screen(half), ScreenPoint { x: 500, y: -500 });
    assert_eq!(camera.screen_to_world(camera.world_to_screen(half)), half);
}

#[test]
fn world_round_trip_misses_by_less_than_a_rounding_step() {
    let camera = CameraView { position: WorldPoint { x: 0, y: 0 }, zoom: 333 };
    let p = WorldPoint { x: 1, y: 7 };
    let s = camera.world_to_screen(p);
    assert_eq!(s, ScreenPoint { x: 0, y: 2 });
    let back = camera.screen_to_world(s);
    assert_eq!(back, WorldPoint { x: 0, y: 6 });
    for (a, b) in [(p.x, back.x), (p.y, back.y)] {
        assert!(a - b >= 0 && 333 * (a - b) < 333 + 1000);
    }
    let far = WorldPoint { x: 1000, y: -1000 };
    assert_eq!(camera.screen_to_world(camera.world_to_screen(far)), far);
}

#[test]
fn screen_to_world_and_back_stays_within_rounding() {
    let camera = CameraView { position: WorldPoint { x: -5, y: 77 }, zoom: 123 };
    let s = ScreenPoint { x: 3, y: -4 };
    let back = camera.world_to_screen(camera.screen_to_world(s));
    assert_eq!(back, ScreenPoint { x: 2, y: -5 });
    for (a, b) in [(s.x, back.x), (s.y, back.y)] {
        assert!(a - b >= 0 && 1000 * (a - b) < 123 + 1000);
    }
    let exact = ScreenPoint { x: 1230, y: -1230 };
    assert_eq!(camera.world_to_screen(camera.screen_to_world(exact)), exact);
}

#[test]
fn world_to_grid_floors_towards_negative() {
    assert_eq!(world_to_grid(WorldPoint { x: -1, y: 10_000 }), GridCoord { x: -1, y: 1 });
    assert_eq!(world_to_grid(WorldPoint { x: 9_999, y: 0 }), GridCoord { x: 0, y: 0 });
    assert_eq!(world_to_grid(WorldPoint { x: -10_000, y: -10_001 }), GridCoord { x: -1, y: -2 });
}

#[test]
fn classify_uses_exact_cutoffs() {
    assert_eq!(classify(0), TerrainType::Flat);
    assert_eq!(classify(70), TerrainType::Flat);
    assert_eq!(classify(71), TerrainType::Rough);
    assert_eq!(classify(85), TerrainType::Rough);
    assert_eq!(classify(86), TerrainType::Crater);
    assert_eq!(classify(95), TerrainType::Crater);
    assert_eq!(classify(96), TerrainType::Mountain);
    assert_eq!(classify(99), TerrainType::Mountain);
    let mut counts = [0usize; 4];
    for d in 0..100 {
        let k = match classify(d) {
            TerrainType::Flat => 0,
            TerrainType::Rough => 1,
            TerrainType::Crater => 2,
            TerrainType::Mountain => 3,
        };
        counts[k] += 1;
    }
    assert_eq!(counts, [71, 15, 10, 4]);
}

#[test]
fn grid_from_draws_is_row_major() {
    let grid = WorldGrid::from_draws(2, 2, &vec![0, 71, 86, 96]);
    assert_eq!(grid.tiles.len(), 4);
    assert_eq!(grid.tiles[1], MapTile { x: 1, y: 0, terrain: TerrainType::Rough });
    assert_eq!(grid.tiles[2], MapTile { x: 0, y: 1, terrain: TerrainType::Crater });
    assert_eq!(grid.lookup(1, 1), Some(MapTile { x: 1, y: 1, terrain: TerrainType::Mountain }));
    assert_eq!(grid.lookup(0, 0), Some(MapTile { x: 0, y: 0, terrain: TerrainType::Flat }));
    assert_eq!(grid.lookup(2, 0), None);
    assert_eq!(grid.lookup(0, -1), None);
}

#[test]
fn empty_grid_has_no_tiles() {
    let grid = WorldGrid::generate(0, 5, 1);
    assert!(grid.tiles.is_empty());
    assert_eq!(grid.lookup(0, 0), None);
}

#[test]
fn generated_grid_covers_each_coordinate_once() {
    let grid = WorldGrid::generate(64, 64, 99);
    assert_eq!(grid.tiles.len(), 4096);
    let mut seen = vec![false; 4096];
    for tile in &grid.tiles {
        assert!(tile.x < 64 && tile.y < 64);
        let i = (tile.y * 64 + tile.x) as usize;
        assert!(!seen[i]);
        seen[i] = true;
    }
    assert!(seen.iter().all(|s| *s));
}

#[test]
fn generation_follows_the_seed() {
    let a = WorldGrid::generate(64, 64, 5);
    let b = WorldGrid::generate(64, 64, 5);
    let c = WorldGrid::generate(64, 64, 6);
    assert!(a.tiles == b.tiles);
    assert!(a.tiles != c.tiles);
    let counts = terrain_counts(&a);
    assert!(counts.iter().all(|n| *n > 0));
}

#[test]
fn terrain_proportions_are_near_targets() {
    let grid = WorldGrid::generate(64, 64, 2024);
    let counts = terrain_counts(&grid);
    let share = |n: usize| n as f64 / 4096.0;
    assert!((share(counts[0]) - 0.71).abs() < 0.05);
    assert!((share(counts[1]) - 0.15).abs() < 0.04);
    assert!((share(counts[2]) - 0.10).abs() < 0.04);
    assert!((share(counts[3]) - 0.04).abs() < 0.03);
}

#[test]
fn hover_finds_the_tile_under_the_cursor() {
    let grid = WorldGrid::from_draws(64, 64, &vec![0; 4096]);
    let camera = CameraView::centered_on(64, 64);
    let hit = handle_tile_hover(&grid, &camera, ScreenPoint { x: 0, y: 0 });
    assert_eq!(hit, Some(MapTile { x: 32, y: 32, terrain: TerrainType::Flat }));
    let hit = handle_tile_hover(&grid, &camera, ScreenPoint { x: -19_000, y: 21_000 });
    assert_eq!(hit, Some(MapTile { x: 31, y: 33, terrain: TerrainType::Flat }));
}

#[test]
fn hover_off_the_map_finds_nothing() {
    let grid = WorldGrid::from_draws(64, 64, &vec![0; 4096]);
    let camera = CameraView::centered_on(64, 64);
    assert_eq!(handle_tile_hover(&grid, &camera, ScreenPoint { x: -700_000, y: 0 }), None);
    assert_eq!(handle_tile_hover(&grid, &camera, ScreenPoint { x: 700_000, y: 0 }), None);
    assert_eq!(handle_tile_hover(&grid, &camera, ScreenPoint { x: 0, y: 640_000 }), None);
    assert_eq!(handle_tile_hover(&grid, &camera, ScreenPoint { x: 0, y: -641_000 }), None);
}

#[test]
fn unknown_mission_is_refused() {
    assert!(Mission::find(0).is_none());
    assert!(Mission::find(2).is_none());
    let found = Mission::find(1).unwrap();
    assert_eq!(found.map_size, (64, 64));
    let mut session = Session::new();
    assert_eq!(session.start_mission(999, 1), Err(SessionError::UnknownMission(999)));
    assert_eq!(session.state, GameState::MainMenu);
    assert!(session.grid.is_none());
    assert!(session.mission.is_none());
}

#[test]
fn first_mission_parameters() {
    let mission = Mission::load(1);
    assert_eq!(mission.description, "Establish your first lunar base with basic facilities.");
    assert_eq!(
        mission.objectives,
        vec![
            "Build a Living Module".to_string(),
            "Connect power supply".to_string(),
            "Establish oxygen production".to_string(),
        ]
    );
    assert_eq!(mission.starting_funds, 1_000_000);
}

#[test]
fn starting_a_mission_builds_the_world_and_frames_it() {
    let mut session = Session::new();
    assert_eq!(session.camera.position, WorldPoint { x: 320_000, y: 320_000 });
    session.camera.pan(MoveInput { left: true, ..still() }, 1_000_000);
    session.camera.zoom_by(&vec![ScrollEvent { unit: ScrollUnit::Line, hundredths: 100 }]);
    assert_eq!(session.start_mission(1, 3), Ok(()));
    assert_eq!(session.state, GameState::Playing);
    assert_eq!(session.camera, CameraView::centered_on(64, 64));
    assert_eq!(session.camera.zoom, 2000);
    let grid = session.grid.as_ref().unwrap();
    assert_eq!((grid.width, grid.height), (64, 64));
    assert_eq!(grid.tiles.len(), 4096);
    assert_eq!(session.start_mission(1, 4), Ok(()));
    assert_eq!(session.grid.as_ref().unwrap().tiles.len(), 4096);
}

#[test]
fn ticks_move_the_camera_only_while_playing() {
    let mut session = Session::new();
    let before = session.camera;
    session.tick(MoveInput { up: true, ..still() }, FRAME, &vec![]);
    assert_eq!(session.camera, before);
    assert_eq!(session.hovered_tile(ScreenPoint { x: 0, y: 0 }), None);

    session.start_mission(1, 11).unwrap();
    session.tick(
        MoveInput { up: true, ..still() },
        FRAME,
        &vec![ScrollEvent { unit: ScrollUnit::Line, hundredths: -100 }],
    );
    assert_eq!(session.camera.position, WorldPoint { x: 320_000, y: 324_166 });
    assert_eq!(session.camera.zoom, 3000);
    let tile = session.hovered_tile(ScreenPoint { x: 0, y: 0 }).unwrap();
    assert_eq!((tile.x, tile.y), (32, 32));
    assert_eq!(session.hovered_tile(ScreenPoint { x: 2_000_000, y: 0 }), None);
}

#[test]
fn returning_to_menu_discards_the_world() {
    let mut session = Session::new();
    session.start_mission(1, 8).unwrap();
    session.select_tool(Tool::Telescope);
    session.return_to_menu();
    assert_eq!(session.state, GameState::MainMenu);
    assert!(session.grid.is_none());
    assert!(session.mission.is_none());
    assert_eq!(session.tool.tool, Tool::Telescope);
    session.teardown();
    assert!(session.grid.is_none());
}

#[test]
fn last_tool_selection_wins() {
    let mut selected = SelectedTool::new();
    assert_eq!(selected.current(), Tool::NoTool);
    selected.select(Tool::OxygenPlant);
    selected.select(Tool::HeliumMine);
    assert_eq!(selected, SelectedTool { tool: Tool::HeliumMine });
    let mut session = Session::new();
    session.select_tool(Tool::PowerCable);
    session.select_tool(Tool::ScienceLab);
    assert_eq!(session.tool.current(), Tool::ScienceLab);
    assert_eq!(session.state, GameState::MainMenu);
}

#[test]
fn toolbar_lists_tools_in_order() {
    assert_eq!(
        toolbar_tools(),
        vec![
            Tool::LivingModule,
            Tool::OxygenPlant,
            Tool::PowerCable,
            Tool::ScienceLab,
            Tool::Telescope,
            Tool::HeliumMine,
        ]
    );
}

#[test]
fn dialog_starts_the_chosen_mission() {
    let mut dialog = NewGameDialog::default();
    assert_eq!(dialog, NewGameDialog { open: false, selected_mission: 1 });
    assert_eq!(dialog.confirm(), DialogOutcome::Stay);
    dialog.show();
    dialog.pick_mission(3);
    assert_eq!(dialog.confirm(), DialogOutcome::Start(3));
    assert!(!dialog.open);
    dialog.show();
    dialog.cancel();
    assert_eq!(dialog, NewGameDialog { open: false, selected_mission: 3 });
}

#[test]
fn dialog_labels() {
    assert_eq!(mission_label(1), "Mission 1: First Steps - Basic Base Setup");
    assert_eq!(mission_label(4), "Mission 4: Research - Science Operations");
    assert_eq!(mission_label(6), "Mission 6: Full Operations - Complete Base");
}

#[test]
fn cursor_is_measured_from_the_window_centre() {
    assert_eq!(viewport_to_screen(0, 0, 800, 600), ScreenPoint { x: -400_000, y: 300_000 });
    assert_eq!(viewport_to_screen(400_000, 300_000, 800, 600), ScreenPoint { x: 0, y: 0 });
    assert_eq!(
        viewport_to_screen(10_000, 590_000, 801, 601),
        ScreenPoint { x: -390_500, y: -289_500 }
    );
}

#[test]
fn placement_needs_a_click_and_a_tool() {
    let none = SelectedTool::new();
    assert_eq!(none.placement(true), None);
    let lab = SelectedTool { tool: Tool::ScienceLab };
    assert_eq!(lab.placement(false), None);
    assert_eq!(lab.placement(true), Some(Tool::ScienceLab));
}

#[test]
fn a_held_direction_always_moves() {
    let mut camera = at_origin(5000);
    camera.pan(MoveInput { right: true, ..still() }, 1);
    assert_eq!(camera.position, WorldPoint { x: 1, y: 0 });
    camera.pan(MoveInput { left: true, down: true, ..still() }, 1);
    assert_eq!(camera.position, WorldPoint { x: 0, y: -1 });
    camera.pan(MoveInput { up: true, ..still() }, 0);
    assert_eq!(camera.position, WorldPoint { x: 0, y: -1 });
}

#[test]
fn teardown_discards_only_the_map() {
    let mut session = Session::new();
    session.start_mission(1, 21).unwrap();
    session.select_tool(Tool::HeliumMine);
    let camera = session.camera;
    session.teardown();
    assert!(session.grid.is_none());
    assert_eq!(session.mission.as_ref().map(|m| m.id), Some(1));
    assert_eq!(session.state, GameState::Playing);
    assert_eq!(session.camera, camera);
    assert_eq!(session.tool.tool, Tool::HeliumMine);
    assert_eq!(session.hovered_tile(ScreenPoint { x: 0, y: 0 }), None);
}
