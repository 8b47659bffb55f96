//! The level data model, header versions, editor placement and removal,
//! camera tracking, title selection, and the root state transitions.

use gembounce::GameState;
use gembounce::camera::Camera;
use gembounce::controller::{next_state, ControllerAction};
use gembounce::editor::{place_object, remove_at, ObjectPlaceholder};
use gembounce::level::{
    FinishInfo, GameLevel, GameLevelHeader, GameMap, GemInfo, WallInfo, CURRENT_VERSION,
};
use gembounce::title::{select_down, select_page_back, select_page_forward, select_up};
use gembounce::vec2::Vec2;

fn v(x: i64, y: i64) -> Vec2 {
    Vec2 { x, y }
}

#[test]
fn default_level_is_empty_and_current() {
    let lvl = GameLevel::default();
    assert_eq!(lvl.name(), "No Name");
    assert_eq!(lvl.version(), CURRENT_VERSION);
    assert_eq!(lvl.ball_pos, v(36, 36));
    assert_eq!(lvl.map.width, 320);
    assert_eq!(lvl.map.height, 200);
    assert!(lvl.walls().is_empty());
    assert!(lvl.finish_flag().is_none());
}

#[test]
fn header_defaults_and_version_handling() {
    let mut h = GameLevelHeader::default();
    assert_eq!(h.name(), "No Name");
    assert_eq!(h.version(), "1.0");
    // Files without a version field predate the versioned schema.
    assert_eq!(GameLevelHeader::default_version(), "0.1");
    h.set_version(String::from("0.1"));
    assert_eq!(h.version(), "0.1");
}

#[test]
fn map_expands_to_fit_but_never_shrinks() {
    let mut m = GameMap::new(320, 200);
    m.expand_to_fit(v(400, 100));
    assert_eq!((m.width, m.height), (400, 200));
    m.expand_to_fit(v(-50, 500));
    assert_eq!((m.width, m.height), (400, 500));
    m.expand_to_fit(v(10, 10));
    assert_eq!((m.width, m.height), (400, 500));
}

#[test]
fn ball_position_scales_and_truncates() {
    let mut lvl = GameLevel::default();
    assert_eq!(lvl.ball_position(), v(36_000, 36_000));
    lvl.set_ball_position(v(-1_500, 2_700));
    assert_eq!(lvl.ball_pos, v(-1, 2));
}

#[test]
fn placing_a_wall_snaps_to_the_grid_and_grows_the_map() {
    let mut lvl = GameLevel::default();
    let ph = ObjectPlaceholder::Wall { dim: v(48, 48), texture_id: 3 };
    // 10.5 units snaps to the nearest multiple of 4 units: 12.
    place_object(&mut lvl, &ph, v(10_500, 10_500));
    assert_eq!(lvl.walls().len(), 1);
    assert_eq!(
        lvl.walls()[0],
        WallInfo { pos: v(12, 12), dim: v(48, 48), texture_id: 3 }
    );
    assert_eq!((lvl.map.width, lvl.map.height), (320, 200));
    // A wall past the map's edge grows it exactly to fit.
    place_object(&mut lvl, &ph, v(400_000, 300_000));
    assert_eq!((lvl.map.width, lvl.map.height), (448, 348));
}

#[test]
fn placing_a_gem_raises_the_finish_requirement() {
    let mut lvl = GameLevel::default();
    lvl.set_finish_flag(FinishInfo { pos: v(100, 100), gems_required: 0 });
    place_object(&mut lvl, &ObjectPlaceholder::Gem, v(20_000, 20_000));
    assert_eq!(lvl.gems()[0], GemInfo { pos: v(20, 20) });
    assert_eq!(lvl.finish_flag().unwrap().gems_required, 1);
}

#[test]
fn placing_the_finish_counts_the_gems_and_then_only_moves() {
    let mut lvl = GameLevel::default();
    place_object(&mut lvl, &ObjectPlaceholder::Gem, v(20_000, 20_000));
    place_object(&mut lvl, &ObjectPlaceholder::Gem, v(40_000, 20_000));
    place_object(&mut lvl, &ObjectPlaceholder::Finish, v(60_000, 20_000));
    let f = *lvl.finish_flag().unwrap();
    assert_eq!(f, FinishInfo { pos: v(60, 20), gems_required: 2 });
    place_object(&mut lvl, &ObjectPlaceholder::Finish, v(80_000, 20_000));
    let f = *lvl.finish_flag().unwrap();
    assert_eq!(f, FinishInfo { pos: v(80, 20), gems_required: 2 });
}

#[test]
fn placing_mine_pump_and_ball() {
    let mut lvl = GameLevel::default();
    place_object(&mut lvl, &ObjectPlaceholder::Mine, v(15_400, 16_900));
    place_object(&mut lvl, &ObjectPlaceholder::Pump, v(-2_600, 3_200));
    place_object(&mut lvl, &ObjectPlaceholder::Ball, v(50_500, 60_900));
    assert_eq!(lvl.mines()[0].pos, v(15, 16));
    assert_eq!(lvl.pumps()[0].pos, v(-2, 3));
    assert_eq!(lvl.ball_pos, v(50, 60));
}

#[test]
fn removing_prefers_walls_then_entities_in_order() {
    let mut lvl = GameLevel::default();
    let wall = ObjectPlaceholder::Wall { dim: v(48, 48), texture_id: 0 };
    place_object(&mut lvl, &wall, v(12_000, 12_000));
    place_object(&mut lvl, &ObjectPlaceholder::Mine, v(20_000, 20_000));
    // The probe lies on the wall and near the mine: the wall goes first.
    assert!(remove_at(&mut lvl, v(20_000, 20_000)));
    assert!(lvl.walls().is_empty());
    assert_eq!(lvl.mines().len(), 1);
    assert!(remove_at(&mut lvl, v(20_000, 20_000)));
    assert!(lvl.mines().is_empty());
    assert!(!remove_at(&mut lvl, v(20_000, 20_000)));
}

#[test]
fn removing_a_gem_lowers_the_finish_requirement() {
    let mut lvl = GameLevel::default();
    place_object(&mut lvl, &ObjectPlaceholder::Gem, v(20_000, 20_000));
    place_object(&mut lvl, &ObjectPlaceholder::Finish, v(200_000, 20_000));
    assert_eq!(lvl.finish_flag().unwrap().gems_required, 1);
    assert!(remove_at(&mut lvl, v(20_000, 20_000)));
    assert!(lvl.gems().is_empty());
    assert_eq!(lvl.finish_flag().unwrap().gems_required, 0);
}

#[test]
fn removing_the_finish_flag_clears_it() {
    let mut lvl = GameLevel::default();
    place_object(&mut lvl, &ObjectPlaceholder::Finish, v(20_000, 20_000));
    assert!(remove_at(&mut lvl, v(20_000, 20_000)));
    assert!(lvl.finish_flag().is_none());
}

#[test]
fn placeholder_cycle_is_a_loop() {
    let wall = ObjectPlaceholder::default_wall();
    let order = [
        wall,
        ObjectPlaceholder::Mine,
        ObjectPlaceholder::Pump,
        ObjectPlaceholder::Gem,
        ObjectPlaceholder::Ball,
        ObjectPlaceholder::Finish,
    ];
    let mut cur = wall;
    for expected in order.iter().skip(1) {
        cur = cur.next();
        assert_eq!(cur, *expected);
    }
    assert_eq!(cur.next(), wall);
    assert_eq!(wall.previous(), ObjectPlaceholder::Finish);
    assert_eq!(ObjectPlaceholder::Mine.previous(), wall);
}

#[test]
fn camera_centers_within_bounds() {
    let mut cam = Camera::default();
    assert_eq!(cam.position(), v(0, 0));
    cam.focus_on(v(160_000, 100_000), v(320_000, 200_000));
    assert_eq!(cam.position(), v(0, 0));
    // A focus near the right edge is clamped so the viewport stays on
    // the map.
    cam.focus_on(v(600_000, 100_000), v(640_000, 200_000));
    assert_eq!(cam.position(), v(320_000, 0));
}

#[test]
fn camera_soft_focus_moves_only_past_the_margins() {
    let mut cam = Camera::new(v(0, 0), 320_000, 200_000);
    // Inside the margins nothing moves.
    cam.soft_focus_on(v(150_000, 90_000), v(640_000, 400_000));
    assert_eq!(cam.position(), v(0, 0));
    // Past the right margin the camera slides just enough.
    cam.soft_focus_on(v(260_000, 90_000), v(640_000, 400_000));
    assert_eq!(cam.position(), v(60_000, 0));
}

#[test]
fn camera_pan_and_round() {
    let mut cam = Camera::new(v(0, 0), 320_000, 200_000);
    cam.pan(v(1_500, -2_500));
    assert_eq!(cam.position(), v(1_500, -2_500));
    cam.round_position();
    assert_eq!(cam.position(), v(2_000, -3_000));
}

#[test]
fn title_selection_clamps_to_the_list() {
    assert_eq!(select_down(0, 5), 1);
    assert_eq!(select_down(4, 5), 4);
    assert_eq!(select_up(0), 0);
    assert_eq!(select_up(3), 2);
    assert_eq!(select_page_forward(0, 20), 8);
    assert_eq!(select_page_forward(15, 20), 19);
    assert_eq!(select_page_back(3), 0);
    assert_eq!(select_page_back(12), 4);
}

#[test]
fn actions_map_to_screens() {
    assert_eq!(next_state(ControllerAction::Exit), GameState::Exit);
    assert_eq!(next_state(ControllerAction::LoadTitleScreen), GameState::Title);
    assert_eq!(next_state(ControllerAction::LoadGame(3)), GameState::Game(3));
    assert_eq!(
        next_state(ControllerAction::OpenEditor(Some(String::from("a.json")))),
        GameState::Editor(Some(String::from("a.json")))
    );
}
