use nora::assets::AnimationID;
use nora::entity::HumanoidEnemy;
use nora::graphics::{Color, DrawCall, RenderLayers};
use nora::parse::LayerFault;
use nora::player::{Input, Player};
use nora::registry::Enumerated;
use nora::screens::{
    create_screen, create_screen_registry, AnyScreen, RegistryError, Screen, ScreenError, ScreenID,
    ScreenUpdateContext, ScreenUpdateResult, TilemapScreen, WinScreen,
};
use nora::tilemap::{Layer, MapError};
use nora::utils::Vec2;

const CLEAR: DrawCall = DrawCall::Clear(Color { r: 0, g: 0, b: 0, a: 0 });

fn layer_text(name: &str, cells: &[usize]) -> String {
    let cells: Vec<String> = cells.iter().map(|c| format!("{}", c)).collect();
    format!(
        " <layer id=\"1\" name=\"{}\" width=\"48\" height=\"27\">\n  <data encoding=\"csv\">\n{}\n</data>\n </layer>\n",
        name,
        cells.join(",")
    )
}

/// The text of a map with a floor in row 21, the given markers, and one
/// tile in the background.
fn map_text(markers: &[(usize, usize, usize)]) -> String {
    let empty = vec![0; 1296];
    let mut background = empty.clone();
    background[5] = 3;
    let mut collision = empty.clone();
    for x in 0..48 {
        collision[x + 21 * 48] = 1;
    }
    let mut special = empty.clone();
    for (x, y, marker) in markers {
        special[x + y * 48] = *marker;
    }
    let mut text = String::from("<map>\n");
    text.push_str(&layer_text("Background", &background));
    text.push_str(&layer_text("Walls", &empty));
    text.push_str(&layer_text("Collision", &collision));
    text.push_str(&layer_text("Detail", &empty));
    text.push_str(&layer_text("Detail2", &empty));
    text.push_str(&layer_text("Special", &special));
    text.push_str("</map>\n");
    text
}

fn none() -> Input {
    Input { left: false, right: false, jump: false, crouch: false }
}

/// A player that stands at rest on the floor, on cell (10, 20).
fn standing_player() -> Player {
    let mut player = Player::new();
    player.pos = Vec2::new(80_000, 160_000);
    player.on_ground = true;
    player
}

fn level(markers: &[(usize, usize, usize)], links: Vec<(ScreenID, usize)>) -> TilemapScreen<HumanoidEnemy> {
    TilemapScreen::new(&map_text(markers), Vec::new(), links).unwrap()
}

#[test]
fn loading_puts_the_player_on_the_spawn_point() {
    let mut screen = level(&[(3, 4, 9), (7, 7, 8)], Vec::new());
    let mut layers = RenderLayers::new();
    let mut player = Player::new();
    player.velocity = Vec2::new(5, 6);
    screen.on_load(ScreenUpdateContext { player: &mut player, render_layers: &mut layers, input: none() }, 1);
    assert_eq!(player.pos, Vec2::new(24_000, 32_000));
    assert_eq!(player.velocity, Vec2::new(5, 6));
    // the tile of the background, then the floor of the collision layer
    let mut painted = vec![DrawCall::Tileset(2, 0, 40_000, 0)];
    for x in 0..48 {
        painted.push(DrawCall::Tileset(0, 0, x * 8_000, 168_000));
    }
    assert_eq!(layers.world.calls, painted);
    assert!(layers.entities.calls.is_empty());

    screen.on_load(ScreenUpdateContext { player: &mut player, render_layers: &mut layers, input: none() }, 0);
    assert_eq!(player.pos, Vec2::new(56_000, 56_000));
}

#[test]
fn loading_at_a_spawn_point_that_the_map_lacks_leaves_the_player() {
    let mut screen = level(&[(3, 4, 9)], Vec::new());
    let mut layers = RenderLayers::new();
    let mut player = Player::new();
    player.pos = Vec2::new(11, 12);
    screen.on_load(ScreenUpdateContext { player: &mut player, render_layers: &mut layers, input: none() }, 0);
    assert_eq!(player.pos, Vec2::new(11, 12));
    screen.on_load(ScreenUpdateContext { player: &mut player, render_layers: &mut layers, input: none() }, usize::MAX);
    assert_eq!(player.pos, Vec2::new(11, 12));
    assert_eq!(layers.world.calls.len(), 98);
}

#[test]
fn a_portal_asks_for_the_linked_screen_of_its_slot() {
    let links = vec![(ScreenID::Level2, 1), (ScreenID::Level1, 0)];
    let mut screen = level(&[(10, 20, 4)], links.clone());
    let mut layers = RenderLayers::new();
    let mut player = standing_player();
    let outcome = screen.update(ScreenUpdateContext { player: &mut player, render_layers: &mut layers, input: none() });
    assert_eq!(outcome, Ok(ScreenUpdateResult::ChangeScreen(ScreenID::Level2, 1)));

    let mut screen = level(&[(10, 20, 5)], links.clone());
    let mut player = standing_player();
    let outcome = screen.update(ScreenUpdateContext { player: &mut player, render_layers: &mut layers, input: none() });
    assert_eq!(outcome, Ok(ScreenUpdateResult::ChangeScreen(ScreenID::Level1, 0)));
}

#[test]
fn a_portal_without_a_linked_screen_is_an_error() {
    let links = vec![(ScreenID::Level2, 1), (ScreenID::Level1, 0)];
    let mut screen = level(&[(10, 20, 6)], links.clone());
    let mut layers = RenderLayers::new();
    let mut player = standing_player();
    let outcome = screen.update(ScreenUpdateContext { player: &mut player, render_layers: &mut layers, input: none() });
    assert_eq!(outcome, Err(ScreenError::NoLinkedScreen(2, 2)));

    let mut screen = level(&[(10, 20, 7)], Vec::new());
    let mut player = standing_player();
    let outcome = screen.update(ScreenUpdateContext { player: &mut player, render_layers: &mut layers, input: none() });
    assert_eq!(outcome, Err(ScreenError::NoLinkedScreen(3, 0)));
}

#[test]
fn the_portal_is_read_where_the_player_is_after_its_move() {
    let links = vec![(ScreenID::Level3, 2)];
    let mut screen = level(&[(11, 20, 4)], links);
    let mut layers = RenderLayers::new();
    let mut player = standing_player();
    player.pos = Vec2::new(82_500, 160_000);
    let right = Input { left: false, right: true, jump: false, crouch: false };
    // 82.5 is nearest to column 10; after the move to 84.5 it is column 11
    let outcome = screen.update(ScreenUpdateContext { player: &mut player, render_layers: &mut layers, input: right });
    assert_eq!(player.pos, Vec2::new(84_500, 160_000));
    assert_eq!(outcome, Ok(ScreenUpdateResult::ChangeScreen(ScreenID::Level3, 2)));
}

#[test]
fn other_markers_ask_for_nothing() {
    for marker in [0, 1, 2, 3, 8, 9, 10, 11, 13] {
        let mut screen = level(&[(10, 20, marker)], Vec::new());
        let mut layers = RenderLayers::new();
        let mut player = standing_player();
        let outcome = screen.update(ScreenUpdateContext { player: &mut player, render_layers: &mut layers, input: none() });
        assert_eq!(outcome, Ok(ScreenUpdateResult::Pass));
        assert_eq!(player.pos, Vec2::new(80_000, 160_000));
        assert!(layers.entities.calls.is_empty());
    }
}

#[test]
fn a_checkpoint_marker_sends_the_player_to_spawn_point_zero() {
    let mut screen = level(&[(10, 20, 12), (30, 20, 8)], Vec::new());
    let mut layers = RenderLayers::new();
    let mut player = standing_player();
    let outcome = screen.update(ScreenUpdateContext { player: &mut player, render_layers: &mut layers, input: none() });
    assert_eq!(outcome, Ok(ScreenUpdateResult::Pass));
    assert_eq!(player.pos, Vec2::new(240_000, 160_000));

    let mut screen = level(&[(10, 20, 12)], Vec::new());
    let mut player = standing_player();
    let outcome = screen.update(ScreenUpdateContext { player: &mut player, render_layers: &mut layers, input: none() });
    assert_eq!(outcome, Err(ScreenError::NoCheckpoint));
    assert_eq!(player.pos, Vec2::new(80_000, 160_000));
}

#[test]
fn the_enemies_move_before_the_player_and_strike_in_turn() {
    let mut near = HumanoidEnemy::new(Vec2::new(84_000, 160_000), AnimationID::PlayerSprint, 400);
    near.on_ground = true;
    let mut far = HumanoidEnemy::new(Vec2::new(240_000, 160_000), AnimationID::PlayerIdle, 400);
    far.on_ground = true;
    let other = HumanoidEnemy::new(Vec2::new(78_000, 160_000), AnimationID::PlayerSprint, 400);
    let mut screen =
        TilemapScreen::new(&map_text(&[]), vec![near, far, other], Vec::new()).unwrap();
    let mut layers = RenderLayers::new();
    let mut player = standing_player();
    let right = Input { left: false, right: true, jump: false, crouch: false };
    let outcome = screen.update(ScreenUpdateContext { player: &mut player, render_layers: &mut layers, input: right });
    assert_eq!(outcome, Ok(ScreenUpdateResult::Pass));
    // two enemies were in reach of the player where it stood before its move
    assert_eq!(player.health, 80_000);
    assert_eq!(player.pos, Vec2::new(82_000, 160_000));

    screen.draw(ScreenUpdateContext { player: &mut player, render_layers: &mut layers, input: none() });
    assert_eq!(
        layers.entities.calls,
        vec![
            CLEAR,
            DrawCall::Animation(AnimationID::PlayerSprint, 16, 80_000, 152_000, false),
            DrawCall::Animation(AnimationID::PlayerIdle, 16, 235_000, 152_000, true),
            DrawCall::Animation(AnimationID::PlayerSprint, 16, 74_000, 152_000, false),
            DrawCall::Animation(AnimationID::PlayerSprint, 16, 78_000, 152_000, false),
        ]
    );
    assert_eq!(layers.ui.calls, vec![CLEAR]);
    assert!(layers.world.calls.is_empty());
    assert!(layers.world_foreground.calls.is_empty());
}

#[test]
fn the_screen_of_the_win_does_nothing_but_paint() {
    let mut screen = WinScreen::new(&map_text(&[(10, 20, 4), (3, 4, 8)])).unwrap();
    let mut layers = RenderLayers::new();
    let mut player = standing_player();
    screen.on_load(ScreenUpdateContext { player: &mut player, render_layers: &mut layers, input: none() }, 0);
    assert_eq!(player.pos, Vec2::new(80_000, 160_000));
    assert_eq!(layers.world.calls.len(), 49);
    let jump = Input { left: false, right: true, jump: true, crouch: false };
    let outcome = screen.update(ScreenUpdateContext { player: &mut player, render_layers: &mut layers, input: jump });
    assert_eq!(outcome, Ok(ScreenUpdateResult::Pass));
    assert_eq!(player.pos, Vec2::new(80_000, 160_000));
    assert_eq!(player.anim_frame, 0);
    screen.draw(ScreenUpdateContext { player: &mut player, render_layers: &mut layers, input: none() });
    assert_eq!(layers.entities.calls, vec![CLEAR]);
    assert_eq!(layers.ui.calls, vec![CLEAR]);
    assert_eq!(layers.world.calls.len(), 49);
}

#[test]
fn a_screen_with_a_bad_map_is_not_made() {
    let text = map_text(&[]).replace("name=\"Special\"", "name=\"Spezial\"");
    assert_eq!(
        WinScreen::new(&text).err(),
        Some(MapError { layer: Layer::Special, fault: LayerFault::MissingLayer })
    );
    assert_eq!(
        TilemapScreen::<HumanoidEnemy>::new(&text, Vec::new(), Vec::new()).err(),
        Some(MapError { layer: Layer::Special, fault: LayerFault::MissingLayer })
    );
    assert_eq!(
        create_screen(ScreenID::Level3, &text).err(),
        Some(MapError { layer: Layer::Special, fault: LayerFault::MissingLayer })
    );
}

#[test]
fn screens_are_numbered_in_their_order() {
    let all = ScreenID::all();
    assert_eq!(
        all,
        vec![
            ScreenID::Test,
            ScreenID::Level1,
            ScreenID::Level2,
            ScreenID::Level3,
            ScreenID::Level4,
            ScreenID::Level5,
            ScreenID::Level6,
            ScreenID::Level7,
            ScreenID::Level8,
        ]
    );
    for (place, id) in all.iter().enumerate() {
        assert_eq!(usize::from(*id), place);
        assert_eq!(id.index(), place);
    }
}

#[test]
fn the_test_screen_has_an_enemy_and_two_portals() {
    let mut screen = create_screen(ScreenID::Test, &map_text(&[(10, 20, 5)])).unwrap();
    assert!(matches!(screen, AnyScreen::Tilemap(_)));
    let mut layers = RenderLayers::new();
    let mut player = standing_player();
    let outcome = screen.update(ScreenUpdateContext { player: &mut player, render_layers: &mut layers, input: none() });
    assert_eq!(outcome, Ok(ScreenUpdateResult::ChangeScreen(ScreenID::Level1, 0)));
    screen.draw(ScreenUpdateContext { player: &mut player, render_layers: &mut layers, input: none() });
    // the enemy started at cell (25, 17) and has fallen for one tick
    assert_eq!(
        layers.entities.calls,
        vec![
            CLEAR,
            DrawCall::Animation(AnimationID::PlayerSprint, 16, 195_000, 128_000, true),
            DrawCall::Animation(AnimationID::PlayerIdle, 16, 76_000, 152_000, false),
        ]
    );
}

#[test]
fn every_level_leads_back_and_forth() {
    let expected = [
        (ScreenID::Test, vec![(ScreenID::Level1, 1), (ScreenID::Level1, 0)]),
        (ScreenID::Level1, vec![(ScreenID::Level2, 0)]),
        (ScreenID::Level2, vec![(ScreenID::Level1, 1), (ScreenID::Level3, 0)]),
        (ScreenID::Level3, vec![(ScreenID::Level2, 1), (ScreenID::Level4, 0)]),
        (ScreenID::Level4, vec![(ScreenID::Level3, 1), (ScreenID::Level5, 0)]),
        (ScreenID::Level5, vec![(ScreenID::Level4, 1), (ScreenID::Level6, 0)]),
        (ScreenID::Level6, vec![(ScreenID::Level5, 1), (ScreenID::Level7, 0)]),
        (ScreenID::Level7, vec![(ScreenID::Level6, 1), (ScreenID::Level8, 0)]),
    ];
    for (id, links) in expected {
        for slot in 0..4 {
            let mut screen = create_screen(id, &map_text(&[(10, 20, 4 + slot)])).unwrap();
            let mut layers = RenderLayers::new();
            let mut player = standing_player();
            let outcome = screen.update(ScreenUpdateContext { player: &mut player, render_layers: &mut layers, input: none() });
            if slot < links.len() {
                let (target, spawn) = links[slot];
                assert_eq!(outcome, Ok(ScreenUpdateResult::ChangeScreen(target, spawn)));
            } else {
                assert_eq!(outcome, Err(ScreenError::NoLinkedScreen(slot, links.len())));
            }
        }
    }
}

#[test]
fn the_registry_holds_a_screen_for_every_identifier() {
    let text = map_text(&[(10, 20, 4), (3, 4, 9)]);
    let sources: [&str; 9] = [&text; 9];
    let mut registry = create_screen_registry(&sources).unwrap();
    for id in ScreenID::all() {
        let is_win = matches!(registry.get(id), AnyScreen::Win(_));
        assert_eq!(is_win, id == ScreenID::Level8);
    }
    let mut layers = RenderLayers::new();
    let mut player = standing_player();
    let screen = registry.get_mut(ScreenID::Level2);
    screen.on_load(ScreenUpdateContext { player: &mut player, render_layers: &mut layers, input: none() }, 1);
    assert_eq!(player.pos, Vec2::new(24_000, 32_000));
    player.pos = Vec2::new(80_000, 160_000);
    let outcome = screen.update(ScreenUpdateContext { player: &mut player, render_layers: &mut layers, input: none() });
    assert_eq!(outcome, Ok(ScreenUpdateResult::ChangeScreen(ScreenID::Level1, 1)));
    let last = registry.get_mut(ScreenID::Level8);
    let outcome = last.update(ScreenUpdateContext { player: &mut player, render_layers: &mut layers, input: none() });
    assert_eq!(outcome, Ok(ScreenUpdateResult::Pass));
}

#[test]
fn the_first_bad_map_names_its_screen() {
    let good = map_text(&[]);
    let unclosed = good.replace("</data>", "");
    let headless = good.replace("name=\"Walls\"", "");
    let mut sources: [&str; 9] = [&good; 9];
    sources[4] = &unclosed;
    sources[6] = &headless;
    assert_eq!(
        create_screen_registry(&sources).err(),
        Some(RegistryError {
            screen: ScreenID::Level4,
            error: MapError { layer: Layer::Background, fault: LayerFault::UnclosedData },
        })
    );
    sources[4] = &good;
    sources[8] = "";
    assert_eq!(
        create_screen_registry(&sources).err(),
        Some(RegistryError {
            screen: ScreenID::Level6,
            error: MapError { layer: Layer::Walls, fault: LayerFault::MissingLayer },
        })
    );
}
