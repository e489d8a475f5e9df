//! The screen state machine: the menu with its sub-screens, the game screen
//! with its nested countdown/playing phase, and the game-over and win
//! screens, together with the per-frame driver and the notification
//! dispatch.
//!
//! The nested game phase lives inside the `Game` variant, so an active
//! countdown or play field without a game screen is unrepresentable, and
//! the `Disabled` phase is simply every other screen.

use vstd::prelude::*;
use crate::countdown::{Countdown, CountdownDisplay};
use crate::layout::{ArenaConfig, DT_MAX};
use crate::world::{
    GameWorld,
    GameEvent,
    EndCondition,
    PaddleInput,
    alive_count,
    spec_tick,
    spec_move_paddle,
};

verus! {

/// Which menu screen is up while the application is on the menu.
#[derive(Clone, Copy, Debug, PartialEq, Eq, Structural)]
pub enum MenuScreen {
    Main,
    Settings,
    SettingsSound,
}

/// A button action available on the menu screens.
#[derive(Clone, Copy, Debug, PartialEq, Eq, Structural)]
pub enum MenuAction {
    Play,
    Settings,
    SettingsSound,
    BackToMainMenu,
    BackToSettings,
    Quit,
}

/// Pointer interaction state of a button, as the UI reports it.
#[derive(Clone, Copy, Debug, PartialEq, Eq, Structural)]
pub enum Interaction {
    Pressed,
    Hovered,
    Idle,
}

/// The named colors of the UI palette.
#[derive(Clone, Copy, Debug, PartialEq, Eq, Structural)]
pub enum PaletteColor {
    Light,
    Dark,
    Darker,
    Yellow,
    Coral,
    Blue,
}

/// Key input on the game-over and win screens.
#[derive(Clone, Copy, Debug, PartialEq, Eq, Structural)]
pub enum EndScreenKey {
    Escape,
    Other,
    Idle,
}

/// A side effect the core asks its surroundings to perform.
#[derive(Clone, Copy, Debug, PartialEq, Eq, Structural)]
pub enum Directive {
    PlayBounceSound,
    LogLostLife,
    LogGameOver,
    ExitApp,
}

/// The game sub-state, derived from the screen: `Disabled` off the game
/// screen, `Starting` while the countdown runs, `Playing` afterwards.
#[derive(Clone, Copy, Debug, PartialEq, Eq, Structural)]
pub enum GamePhase {
    Disabled,
    Starting,
    Playing,
}

/// The screen the application currently shows. The game's countdown and
/// play field exist only inside the `Game` variant.
#[derive(Debug)]
pub enum Screen {
    Menu { menu: MenuScreen },
    Game { countdown: Countdown, world: GameWorld },
    GameOver,
    Win,
}

impl Screen {
    /// The game sub-state this screen implies.
    pub open spec fn spec_phase(self) -> GamePhase {
        match self {
            Screen::Game { countdown, .. } => if countdown.spec_ready() {
                GamePhase::Playing
            } else {
                GamePhase::Starting
            },
            _ => GamePhase::Disabled,
        }
    }

    pub fn phase(&self) -> (p: GamePhase)
        ensures
            p == self.spec_phase(),
    {
        match self {
            Screen::Game { countdown, .. } => {
                if countdown.ready_to_play() {
                    GamePhase::Playing
                } else {
                    GamePhase::Starting
                }
            },
            _ => GamePhase::Disabled,
        }
    }
}

/// One whole play session: the fixed configuration, the current screen, and
/// the sound volume setting.
#[derive(Debug)]
pub struct Session {
    pub config: ArenaConfig,
    pub screen: Screen,
    pub volume: u32,
}

/// The side effect each notification asks for: collisions play the bounce
/// sound; a lost life and a game over are logged.
pub open spec fn spec_directive(e: GameEvent) -> Directive {
    match e {
        GameEvent::Collision => Directive::PlayBounceSound,
        GameEvent::LostLife => Directive::LogLostLife,
        GameEvent::GameOver => Directive::LogGameOver,
    }
}

/// Turn the notifications of one tick into side effects, one each, in
/// order. Consumed once per tick; nothing carries over.
pub fn dispatch_events(events: &Vec<GameEvent>) -> (d: Vec<Directive>)
    ensures
        d@.len() == events@.len(),
        forall|i: int| 0 <= i < events@.len() ==> d@[i] == spec_directive(events@[i]),
{
    let mut d: Vec<Directive> = Vec::new();
    let mut i: usize = 0;
    while i < events.len()
        invariant
            0 <= i <= events@.len(),
            d@.len() == i,
            forall|k: int| 0 <= k < i ==> d@[k] == spec_directive(events@[k]),
        decreases events@.len() - i,
    {
        let dir = match events[i] {
            GameEvent::Collision => Directive::PlayBounceSound,
            GameEvent::LostLife => Directive::LogLostLife,
            GameEvent::GameOver => Directive::LogGameOver,
        };
        d.push(dir);
        i = i + 1;
    }
    d
}

/// Text color of a menu button: dark on an untouched, unselected button,
/// the highlight blue otherwise.
pub open spec fn spec_button_text_color(inter: Interaction, selected: bool) -> PaletteColor {
    if inter is Idle && !selected {
        PaletteColor::Dark
    } else {
        PaletteColor::Blue
    }
}

pub fn button_text_color(inter: Interaction, selected: bool) -> (c: PaletteColor)
    ensures
        c == spec_button_text_color(inter, selected),
{
    match (inter, selected) {
        (Interaction::Pressed, _) => PaletteColor::Blue,
        (Interaction::Hovered, _) => PaletteColor::Blue,
        (Interaction::Idle, true) => PaletteColor::Blue,
        (Interaction::Idle, false) => PaletteColor::Dark,
    }
}

/// Background a volume button asks for when interacted with: nothing for
/// the already selected value; otherwise the select coral on a press, the
/// highlight blue on a hover, and the plain dark otherwise.
pub open spec fn spec_volume_button_background(current: u32, button: u32, inter: Interaction) -> Option<
    PaletteColor,
> {
    if button == current {
        None
    } else {
        match inter {
            Interaction::Pressed => Some(PaletteColor::Coral),
            Interaction::Hovered => Some(PaletteColor::Blue),
            Interaction::Idle => Some(PaletteColor::Darker),
        }
    }
}

pub fn volume_button_background(current: u32, button: u32, inter: Interaction) -> (c: Option<
    PaletteColor,
>)
    ensures
        c == spec_volume_button_background(current, button, inter),
{
    if button == current {
        None
    } else {
        match inter {
            Interaction::Pressed => Some(PaletteColor::Coral),
            Interaction::Hovered => Some(PaletteColor::Blue),
            Interaction::Idle => Some(PaletteColor::Darker),
        }
    }
}

impl Session {
    /// Validity: the configuration is sound, and a game screen carries a
    /// countdown and play field built for that configuration.
    pub open spec fn wf(self) -> bool {
        &&& self.config.well_formed()
        &&& (self.screen matches Screen::Game { countdown, world } ==> {
            &&& countdown.wf()
            &&& world.wf()
            &&& world.config == self.config
            &&& countdown.play_delay_ms == self.config.start_delay_ms
            &&& countdown.go_ms == self.config.go_display_ms
        })
    }

    /// A fresh session: the main menu, with the default volume.
    pub fn new(cfg: &ArenaConfig) -> (s: Session)
        requires
            cfg.well_formed(),
        ensures
            s.wf(),
            s.config == *cfg,
            s.screen == (Screen::Menu { menu: MenuScreen::Main }),
            s.volume == 7,
    {
        Session { config: *cfg, screen: Screen::Menu { menu: MenuScreen::Main }, volume: 7 }
    }

    /// Replace the screen with a freshly entered game: score reset to zero,
    /// the configured lives, the full brick grid standing, the ball and
    /// paddle at their starts, and the countdown at zero elapsed.
    fn enter_game(&mut self)
        requires
            old(self).wf(),
        ensures
            final(self).wf(),
            final(self).config == old(self).config,
            final(self).volume == old(self).volume,
            ({
                let sc = final(self).screen;
                &&& sc matches Screen::Game { countdown, world }
                &&& (sc matches Screen::Game { countdown, world } ==> {
                    &&& countdown.elapsed_ms == 0
                    &&& countdown.play_delay_ms == old(self).config.start_delay_ms
                    &&& countdown.go_ms == old(self).config.go_display_ms
                    &&& world.score == 0
                    &&& world.lives == old(self).config.initial_lives
                    &&& world.paddle_x == 0
                    &&& world.ball.pos == old(self).config.ball_start
                    &&& world.ball.vel == old(self).config.ball_start_vel
                    &&& alive_count(world.bricks@) == world.bricks@.len()
                    &&& world.bricks@.len() == old(self).config.n_rows() * old(self).config.n_cols()
                })
            }),
    {
        let countdown = Countdown::start(self.config.start_delay_ms, self.config.go_display_ms);
        let world = GameWorld::new(&self.config);
        self.screen = Screen::Game { countdown, world };
    }

    /// React to a pressed menu button: `Play` enters the game (and thereby
    /// leaves the menu), the navigation actions switch menu screens, and
    /// `Quit` asks the surroundings to exit.
    pub fn menu_action(&mut self, action: MenuAction) -> (d: Option<Directive>)
        requires
            old(self).wf(),
            old(self).screen is Menu,
        ensures
            final(self).wf(),
            final(self).config == old(self).config,
            final(self).volume == old(self).volume,
            action == MenuAction::Quit ==> final(self).screen == old(self).screen && d == Some(
                Directive::ExitApp,
            ),
            action != MenuAction::Quit ==> d is None,
            action == MenuAction::Settings || action == MenuAction::BackToSettings ==> final(self).screen == (Screen::Menu { menu: MenuScreen::Settings }),
            action == MenuAction::SettingsSound ==> final(self).screen == (Screen::Menu {
                menu: MenuScreen::SettingsSound,
            }),
            action == MenuAction::BackToMainMenu ==> final(self).screen == (Screen::Menu {
                menu: MenuScreen::Main,
            }),
            action == MenuAction::Play ==> ({
                let sc = final(self).screen;
                &&& sc matches Screen::Game { countdown, world }
                &&& (sc matches Screen::Game { countdown, world } ==> {
                    &&& countdown.elapsed_ms == 0
                    &&& world.score == 0
                    &&& world.lives == old(self).config.initial_lives
                    &&& alive_count(world.bricks@) == world.bricks@.len()
                })
            }),
    {
        match action {
            MenuAction::Quit => Some(Directive::ExitApp),
            MenuAction::Play => {
                self.enter_game();
                None
            },
            MenuAction::Settings => {
                self.screen = Screen::Menu { menu: MenuScreen::Settings };
                None
            },
            MenuAction::SettingsSound => {
                self.screen = Screen::Menu { menu: MenuScreen::SettingsSound };
                None
            },
            MenuAction::BackToMainMenu => {
                self.screen = Screen::Menu { menu: MenuScreen::Main };
                None
            },
            MenuAction::BackToSettings => {
                self.screen = Screen::Menu { menu: MenuScreen::Settings };
                None
            },
        }
    }

    /// Pick a volume value: a press on a value other than the current one
    /// selects it; anything else changes nothing.
    pub fn select_volume(&mut self, clicked: u32, inter: Interaction)
        ensures
            final(self).config == old(self).config,
            final(self).screen == old(self).screen,
            final(self).volume == if inter is Pressed && clicked != old(self).volume {
                clicked
            } else {
                old(self).volume
            },
            old(self).wf() ==> final(self).wf(),
    {
        if matches!(inter, Interaction::Pressed) && clicked != self.volume {
            self.volume = clicked;
        }
    }

    /// React to a key on the game-over or win screen: escape goes back to
    /// the main menu, any other key restarts the game, no key stays put.
    pub fn endscreen_key(&mut self, key: EndScreenKey)
        requires
            old(self).wf(),
            old(self).screen is GameOver || old(self).screen is Win,
        ensures
            final(self).wf(),
            final(self).config == old(self).config,
            final(self).volume == old(self).volume,
            key == EndScreenKey::Escape ==> final(self).screen == (Screen::Menu {
                menu: MenuScreen::Main,
            }),
            key == EndScreenKey::Idle ==> final(self).screen == old(self).screen,
            key == EndScreenKey::Other ==> ({
                let sc = final(self).screen;
                &&& sc matches Screen::Game { countdown, world }
                &&& (sc matches Screen::Game { countdown, world } ==> {
                    &&& countdown.elapsed_ms == 0
                    &&& world.score == 0
                    &&& world.lives == old(self).config.initial_lives
                    &&& alive_count(world.bricks@) == world.bricks@.len()
                })
            }),
    {
        match key {
            EndScreenKey::Escape => {
                self.screen = Screen::Menu { menu: MenuScreen::Main };
            },
            EndScreenKey::Other => {
                self.enter_game();
            },
            EndScreenKey::Idle => {},
        }
    }

    /// The countdown overlay to draw this frame, if one is up: present on
    /// the game screen until the whole countdown has elapsed.
    pub fn overlay(&self) -> (d: Option<CountdownDisplay>)
        requires
            self.wf(),
        ensures
            match self.screen {
                Screen::Game { countdown, .. } => d == if countdown.spec_finished() {
                    None::<CountdownDisplay>
                } else {
                    Some(countdown.spec_display())
                },
                _ => d is None,
            },
    {
        match &self.screen {
            Screen::Game { countdown, .. } => {
                if countdown.finished() {
                    None
                } else {
                    Some(countdown.display())
                }
            },
            _ => None,
        }
    }

    /// One frame: on the menu and the end screens nothing moves; on the
    /// game screen the countdown accumulates real time, and once it has
    /// reached the play delay (as of the start of the frame) the simulation
    /// ticks. A terminal tick outcome switches the screen to `Win` or
    /// `GameOver`; the tick's notifications are handed back for dispatch.
    pub fn frame(&mut self, dt: u64, input: PaddleInput) -> (events: Vec<GameEvent>)
        requires
            old(self).wf(),
            dt <= DT_MAX,
        ensures
            final(self).wf(),
            final(self).config == old(self).config,
            final(self).volume == old(self).volume,
            !(old(self).screen is Game) ==> final(self).screen == old(self).screen && events@
                =~= Seq::<GameEvent>::empty(),
            old(self).screen is Game && !old(self).screen->countdown.spec_ready() ==> final(self).screen == (Screen::Game {
                countdown: old(self).screen->countdown.spec_advance(dt),
                world: old(self).screen->world,
            }) && events@ =~= Seq::<GameEvent>::empty(),
            old(self).screen is Game && old(self).screen->countdown.spec_ready() ==> ({
                let c0 = old(self).screen->countdown;
                let w0 = old(self).screen->world;
                let res = spec_tick(w0, input, dt);
                &&& events@ == res.events
                &&& (res.outcome == Some(EndCondition::Win) ==> final(self).screen is Win)
                &&& (res.outcome == Some(EndCondition::GameOver) ==> final(self).screen is GameOver)
                &&& (res.outcome is None ==> {
                    let sc = final(self).screen;
                    &&& sc is Game
                    &&& sc->countdown == c0.spec_advance(dt)
                    &&& sc->world.ball == res.ball
                    &&& sc->world.bricks@ == res.bricks
                    &&& sc->world.score == res.score
                    &&& sc->world.lives == res.lives
                    &&& sc->world.paddle_x == spec_move_paddle(w0.config, w0.paddle_x, input, dt)
                })
            }),
            old(self).screen is Game && final(self).screen is Game ==> old(self).screen->world.score <= final(self).screen->world.score,
    {
        let mut sc = Screen::GameOver;
        core::mem::swap(&mut sc, &mut self.screen);
        match sc {
            Screen::Menu { menu } => {
                self.screen = Screen::Menu { menu };
                Vec::new()
            },
            Screen::GameOver => {
                self.screen = Screen::GameOver;
                Vec::new()
            },
            Screen::Win => {
                self.screen = Screen::Win;
                Vec::new()
            },
            Screen::Game { mut countdown, mut world } => {
                let ready = countdown.ready_to_play();
                countdown.advance(dt);
                if !ready {
                    self.screen = Screen::Game { countdown, world };
                    Vec::new()
                } else {
                    let tr = world.tick(input, dt);
                    match tr.outcome {
                        Option::Some(EndCondition::Win) => {
                            self.screen = Screen::Win;
                        },
                        Option::Some(EndCondition::GameOver) => {
                            self.screen = Screen::GameOver;
                        },
                        Option::None => {
                            self.screen = Screen::Game { countdown, world };
                        },
                    }
                    tr.events
                }
            },
        }
    }
}

} // verus!
