//! Screen state machine, countdown lifecycle, menu decisions, and event
//! dispatch.

use breakout_core::countdown::{Countdown, CountdownDisplay};
use breakout_core::geometry::Vec2;
use breakout_core::layout::standard_config;
use breakout_core::session::{
    button_text_color, dispatch_events, Directive, EndScreenKey, GamePhase, Interaction,
    MenuAction, MenuScreen, PaletteColor, Screen, Session, volume_button_background,
};
use breakout_core::world::{Ball, Brick, GameEvent, GameWorld, PaddleInput};

#[test]
fn countdown_displays_then_go_then_finishes() {
    let mut c = Countdown::start(3_000, 1_000);
    assert_eq!(c.display(), CountdownDisplay::Seconds(3));
    assert!(!c.ready_to_play());
    c.advance(1_000);
    assert_eq!(c.display(), CountdownDisplay::Seconds(2));
    c.advance(1_500);
    assert_eq!(c.display(), CountdownDisplay::Seconds(1));
    assert!(!c.ready_to_play());
    c.advance(500);
    // Elapsed time has reached the play delay: play begins, "GO!" shows.
    assert!(c.ready_to_play());
    assert_eq!(c.display(), CountdownDisplay::Go);
    assert!(!c.finished());
    c.advance(999);
    assert!(!c.finished());
    c.advance(1);
    // The full countdown including the "GO!" display has elapsed.
    assert!(c.finished());
    // Advancing saturates; nothing changes any more.
    c.advance(10_000);
    assert_eq!(c.elapsed_ms, 4_000);
}

#[test]
fn countdown_rounds_partial_seconds_up() {
    let mut c = Countdown::start(3_000, 1_000);
    c.advance(1);
    assert_eq!(c.display(), CountdownDisplay::Seconds(3));
    c.advance(999);
    assert_eq!(c.display(), CountdownDisplay::Seconds(2));
    c.advance(1_999);
    assert_eq!(c.display(), CountdownDisplay::Seconds(1));
}

#[test]
fn menu_navigation_and_quit() {
    let cfg = standard_config();
    let mut s = Session::new(&cfg);
    assert!(matches!(
        s.screen,
        Screen::Menu { menu: MenuScreen::Main }
    ));
    assert_eq!(s.volume, 7);
    assert_eq!(s.menu_action(MenuAction::Settings), None);
    assert!(matches!(
        s.screen,
        Screen::Menu { menu: MenuScreen::Settings }
    ));
    assert_eq!(s.menu_action(MenuAction::SettingsSound), None);
    assert!(matches!(
        s.screen,
        Screen::Menu { menu: MenuScreen::SettingsSound }
    ));
    assert_eq!(s.menu_action(MenuAction::BackToSettings), None);
    assert!(matches!(
        s.screen,
        Screen::Menu { menu: MenuScreen::Settings }
    ));
    assert_eq!(s.menu_action(MenuAction::BackToMainMenu), None);
    assert!(matches!(
        s.screen,
        Screen::Menu { menu: MenuScreen::Main }
    ));
    assert_eq!(s.menu_action(MenuAction::Quit), Some(Directive::ExitApp));
    assert!(matches!(s.screen, Screen::Menu { .. }));
}

#[test]
fn entering_the_game_resets_score_and_lives() {
    let cfg = standard_config();
    let mut s = Session::new(&cfg);
    s.menu_action(MenuAction::Play);
    match &s.screen {
        Screen::Game { countdown, world } => {
            assert_eq!(countdown.elapsed_ms, 0);
            assert_eq!(world.score, 0);
            assert_eq!(world.lives, 3);
            assert_eq!(world.bricks.len(), 56);
            assert!(world.bricks.iter().all(|b| b.alive));
        }
        other => panic!("expected the game screen, found {:?}", other),
    }
    assert_eq!(s.screen.phase(), GamePhase::Starting);
}

#[test]
fn countdown_gates_the_simulation() {
    let cfg = standard_config();
    let mut s = Session::new(&cfg);
    s.menu_action(MenuAction::Play);
    assert_eq!(s.overlay(), Some(CountdownDisplay::Seconds(3)));
    let ev = s.frame(1_000, PaddleInput::MoveLeft);
    assert!(ev.is_empty());
    assert_eq!(s.screen.phase(), GamePhase::Starting);
    match &s.screen {
        // The paddle does not move while the countdown runs.
        Screen::Game { world, .. } => assert_eq!(world.paddle_x, 0),
        other => panic!("expected the game screen, found {:?}", other),
    }
    s.frame(2_000, PaddleInput::Stay);
    // Elapsed time reached the play delay: the sub-state is now Playing,
    // and the overlay shows "GO!".
    assert_eq!(s.screen.phase(), GamePhase::Playing);
    assert_eq!(s.overlay(), Some(CountdownDisplay::Go));
    s.frame(500, PaddleInput::MoveLeft);
    match &s.screen {
        Screen::Game { world, .. } => assert_eq!(world.paddle_x, -250_000),
        other => panic!("expected the game screen, found {:?}", other),
    }
    assert_eq!(s.overlay(), Some(CountdownDisplay::Go));
    s.frame(500, PaddleInput::Stay);
    // The whole countdown has elapsed: the overlay comes down.
    assert_eq!(s.overlay(), None);
    assert_eq!(s.screen.phase(), GamePhase::Playing);
}

fn playing_session(world: GameWorld) -> Session {
    let cfg = standard_config();
    Session {
        config: cfg,
        screen: Screen::Game {
            countdown: Countdown {
                play_delay_ms: cfg.start_delay_ms,
                go_ms: cfg.go_display_ms,
                elapsed_ms: cfg.start_delay_ms + cfg.go_display_ms,
            },
            world,
        },
        volume: 7,
    }
}

#[test]
fn losing_the_last_life_shows_game_over() {
    let cfg = standard_config();
    let mut w = GameWorld::new(&cfg);
    w.lives = 0;
    w.ball = Ball { pos: Vec2 { x: 0, y: -200_000 }, vel: Vec2 { x: 0, y: -500 } };
    let mut s = playing_session(w);
    let ev = s.frame(200, PaddleInput::Stay);
    assert!(matches!(s.screen, Screen::GameOver));
    assert_eq!(ev, vec![GameEvent::Collision, GameEvent::GameOver]);
    // Escape goes back to the menu.
    s.endscreen_key(EndScreenKey::Escape);
    assert!(matches!(
        s.screen,
        Screen::Menu { menu: MenuScreen::Main }
    ));
}

#[test]
fn losing_a_life_keeps_playing() {
    let cfg = standard_config();
    let mut w = GameWorld::new(&cfg);
    w.lives = 1;
    w.ball = Ball { pos: Vec2 { x: 0, y: -200_000 }, vel: Vec2 { x: 0, y: -500 } };
    let mut s = playing_session(w);
    let ev = s.frame(200, PaddleInput::Stay);
    assert_eq!(ev, vec![GameEvent::Collision, GameEvent::LostLife]);
    match &s.screen {
        Screen::Game { world, .. } => {
            assert_eq!(world.lives, 0);
            assert_eq!(world.ball.pos, cfg.ball_start);
            assert_eq!(world.ball.vel, cfg.ball_start_vel);
        }
        other => panic!("expected the game screen, found {:?}", other),
    }
}

#[test]
fn clearing_the_field_shows_win() {
    let cfg = standard_config();
    let mut w = GameWorld::new(&cfg);
    w.bricks = vec![Brick { center: Vec2 { x: 0, y: 45_000 }, alive: true }];
    w.ball = Ball { pos: Vec2 { x: 0, y: 45_000 }, vel: Vec2 { x: 0, y: 0 } };
    let mut s = playing_session(w);
    let ev = s.frame(0, PaddleInput::Stay);
    assert!(matches!(s.screen, Screen::Win));
    assert_eq!(ev, vec![GameEvent::Collision]);
    // Any other key restarts with a fresh field.
    s.endscreen_key(EndScreenKey::Other);
    match &s.screen {
        Screen::Game { countdown, world } => {
            assert_eq!(countdown.elapsed_ms, 0);
            assert_eq!(world.score, 0);
            assert_eq!(world.lives, 3);
            assert_eq!(world.bricks.len(), 56);
        }
        other => panic!("expected the game screen, found {:?}", other),
    }
}

#[test]
fn endscreen_idle_stays_put() {
    let cfg = standard_config();
    let mut s = Session::new(&cfg);
    s.screen = Screen::Win;
    s.endscreen_key(EndScreenKey::Idle);
    assert!(matches!(s.screen, Screen::Win));
}

#[test]
fn frames_outside_the_game_do_nothing() {
    let cfg = standard_config();
    let mut s = Session::new(&cfg);
    let ev = s.frame(1_000, PaddleInput::MoveLeft);
    assert!(ev.is_empty());
    assert!(matches!(
        s.screen,
        Screen::Menu { menu: MenuScreen::Main }
    ));
}

#[test]
fn volume_selection() {
    let cfg = standard_config();
    let mut s = Session::new(&cfg);
    s.select_volume(3, Interaction::Hovered);
    assert_eq!(s.volume, 7);
    s.select_volume(3, Interaction::Pressed);
    assert_eq!(s.volume, 3);
    s.select_volume(3, Interaction::Pressed);
    assert_eq!(s.volume, 3);
    s.select_volume(9, Interaction::Idle);
    assert_eq!(s.volume, 3);
}

#[test]
fn button_colors() {
    assert_eq!(
        button_text_color(Interaction::Idle, false),
        PaletteColor::Dark
    );
    assert_eq!(
        button_text_color(Interaction::Idle, true),
        PaletteColor::Blue
    );
    assert_eq!(
        button_text_color(Interaction::Pressed, false),
        PaletteColor::Blue
    );
    assert_eq!(
        button_text_color(Interaction::Hovered, false),
        PaletteColor::Blue
    );
    assert_eq!(volume_button_background(7, 7, Interaction::Pressed), None);
    assert_eq!(
        volume_button_background(7, 3, Interaction::Pressed),
        Some(PaletteColor::Coral)
    );
    assert_eq!(
        volume_button_background(7, 3, Interaction::Hovered),
        Some(PaletteColor::Blue)
    );
    assert_eq!(
        volume_button_background(7, 3, Interaction::Idle),
        Some(PaletteColor::Darker)
    );
}

#[test]
fn events_dispatch_to_side_effects() {
    let events = vec![
        GameEvent::Collision,
        GameEvent::LostLife,
        GameEvent::Collision,
        GameEvent::GameOver,
    ];
    let d = dispatch_events(&events);
    assert_eq!(
        d,
        vec![
            Directive::PlayBounceSound,
            Directive::LogLostLife,
            Directive::PlayBounceSound,
            Directive::LogGameOver,
        ]
    );
}
