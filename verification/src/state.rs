//! The game as a whole: its three modes and what one tick does in each.

use vstd::prelude::*;
use vstd::string::*;
use crate::config::{FRAME_DURATION_MICROS, SCREEN_HEIGHT, SCREEN_WIDTH, START_X, START_Y};
use crate::display::{drawings, Color, DrawCommand, Drawing, Frame, Input, Key};
use crate::obstacle::{
    gap_size, Obstacle, ObstacleModel, GAP_Y_END, GAP_Y_MIN, NARROWEST_GAP, WIDEST_GAP,
};
use crate::player::{Player, PlayerModel, GRAVITY, TERMINAL_VELOCITY};
use crate::text::{
    death_notice, earned_line, earned_text, flap_hint, play_prompt, quit_prompt, score_line,
    score_text, welcome,
};

verus! {

/// The three modes of the game.
#[derive(Clone, Copy, Debug, PartialEq, Eq, Structural)]
pub enum GameMode {
    /// Before the first game.
    Menu,
    /// A game is running.
    Playing,
    /// The last game was lost.
    End,
}

/// The game as mathematics sees it: unbounded integers.
pub struct StateModel {
    pub player: PlayerModel,
    pub frame_time: int,
    pub mode: GameMode,
    pub score: int,
    pub obstacle: ObstacleModel,
}

impl StateModel {
    /// What holds of every state the game reaches: the player is on or below
    /// the top row, the score and the accumulated time are not negative, and
    /// the one wall is a wall of the game, sized for the score.
    pub open spec fn wf(self) -> bool {
        &&& self.player.y >= 0
        &&& self.frame_time >= 0
        &&& self.score >= 0
        &&& self.obstacle.wf()
        &&& self.obstacle.size == gap_size(self.score)
    }

    /// The state at the start of the program, but for the mode: the player
    /// at rest at the starting cell, no time accumulated, no points, and a
    /// wall one screen width from the origin with its gap centred at `gap_y`.
    pub open spec fn fresh(mode: GameMode, gap_y: int) -> StateModel {
        StateModel {
            player: PlayerModel { x: START_X as int, y: START_Y as int, velocity: 0 },
            frame_time: 0,
            mode,
            score: 0,
            obstacle: ObstacleModel::with_gap(SCREEN_WIDTH as int, gap_y, 0),
        }
    }

    /// The time accumulated once this frame's share is added.
    pub open spec fn accumulated(self, input: Input) -> int {
        self.frame_time + input.elapsed_micros
    }

    /// Whether a physics step is due in this frame. Time is never taken off
    /// the accumulator, so once a step was due, one is due in every frame.
    pub open spec fn step_due(self, input: Input) -> bool {
        self.accumulated(input) > FRAME_DURATION_MICROS
    }

    /// The player after this frame's physics step, if one is due, and flap,
    /// if the key asks for one.
    pub open spec fn moved(self, input: Input) -> PlayerModel {
        let fallen = if self.step_due(input) {
            self.player.after_gravity()
        } else {
            self.player
        };
        if input.key == Some(Key::Space) {
            fallen.flapped()
        } else {
            fallen
        }
    }

    /// Whether the player, once moved, has the wall behind it.
    pub open spec fn passed(self, input: Input) -> bool {
        self.moved(input).x > self.obstacle.x
    }

    /// The score after this frame: one more for a wall passed.
    pub open spec fn scored(self, input: Input) -> int {
        if self.passed(input) {
            self.score + 1
        } else {
            self.score
        }
    }

    /// The wall after this frame: once passed, a new one stands one screen
    /// width ahead of the player, sized for the new score, its gap at `gap_y`.
    pub open spec fn wall_ahead(self, input: Input, gap_y: int) -> ObstacleModel {
        if self.passed(input) {
            ObstacleModel::with_gap(
                self.moved(input).x + SCREEN_WIDTH,
                gap_y,
                self.scored(input),
            )
        } else {
            self.obstacle
        }
    }

    /// Whether the game is lost in this frame: the player is below the
    /// screen or in the wall that is then ahead.
    pub open spec fn lost(self, input: Input, gap_y: int) -> bool {
        let player = self.moved(input);
        player.y > SCREEN_HEIGHT || self.wall_ahead(input, gap_y).hits(player)
    }

    /// The state after a frame of play. `gap_y` is where the gap of a new
    /// wall is centred; it counts only if the wall is passed.
    pub open spec fn playing(self, input: Input, gap_y: int) -> StateModel {
        StateModel {
            player: self.moved(input),
            frame_time: self.accumulated(input),
            mode: if self.lost(input, gap_y) {
                GameMode::End
            } else {
                self.mode
            },
            score: self.scored(input),
            obstacle: self.wall_ahead(input, gap_y),
        }
    }

    /// The state after a frame of the menu or of the screen after a loss:
    /// `P` starts a new game, anything else changes nothing.
    pub open spec fn waiting(self, input: Input, gap_y: int) -> StateModel {
        if input.key == Some(Key::P) {
            Self::fresh(GameMode::Playing, gap_y)
        } else {
            self
        }
    }

    /// The state after one tick, whatever the mode.
    pub open spec fn tick(self, input: Input, gap_y: int) -> StateModel {
        match self.mode {
            GameMode::Menu => self.waiting(input, gap_y),
            GameMode::Playing => self.playing(input, gap_y),
            GameMode::End => self.waiting(input, gap_y),
        }
    }

    /// Whether one tick asks the display to stop: `Q`, outside a game.
    pub open spec fn quits(self, input: Input) -> bool {
        self.mode != GameMode::Playing && input.key == Some(Key::Q)
    }

    /// What the menu shows.
    pub open spec fn menu_frame() -> Seq<Drawing> {
        seq![
            Drawing::Clear { background: None },
            Drawing::PrintCentered { y: 5, text: welcome() },
            Drawing::PrintCentered { y: 8, text: play_prompt() },
            Drawing::PrintCentered { y: 9, text: quit_prompt() },
        ]
    }

    /// What the screen after a loss shows: the final score among the rest.
    pub open spec fn end_frame(self) -> Seq<Drawing> {
        seq![
            Drawing::Clear { background: None },
            Drawing::PrintCentered { y: 5, text: death_notice() },
            Drawing::PrintCentered { y: 6, text: earned_line(self.score) },
            Drawing::PrintCentered { y: 8, text: play_prompt() },
            Drawing::PrintCentered { y: 9, text: quit_prompt() },
        ]
    }

    /// What a frame of play shows: the background, the player where it has
    /// moved to, the two lines of text, and the wall as it stood when the
    /// frame began, with the score from then.
    pub open spec fn playing_frame(self, input: Input) -> Seq<Drawing> {
        seq![
            Drawing::Clear { background: Some(Color::Navy) },
            self.moved(input).drawn(),
            Drawing::Print { x: 0, y: 0, text: flap_hint() },
            Drawing::Print { x: 0, y: 1, text: score_line(self.score) },
        ] + self.obstacle.drawn(self.moved(input).x)
    }

    /// What one tick shows, whatever the mode.
    pub open spec fn frame(self, input: Input) -> Seq<Drawing> {
        match self.mode {
            GameMode::Menu => Self::menu_frame(),
            GameMode::Playing => self.playing_frame(input),
            GameMode::End => self.end_frame(),
        }
    }

    /// Whether a frame of play stays within what the machine's integers
    /// hold: the accumulated time, the player's cell, the wall's screen
    /// column and, where the wall is passed, the new score and column.
    pub open spec fn playing_fits(self, input: Input) -> bool {
        let player = self.moved(input);
        &&& self.accumulated(input) <= u64::MAX
        &&& player.x <= i32::MAX
        &&& player.y <= i32::MAX
        &&& i32::MIN <= self.obstacle.x - player.x <= i32::MAX
        &&& self.passed(input) ==> self.score < i32::MAX && player.x + SCREEN_WIDTH <= i32::MAX
    }

    /// Whether one tick stays within what the machine's integers hold. Only
    /// a frame of play computes anything.
    pub open spec fn fits(self, input: Input) -> bool {
        self.mode == GameMode::Playing ==> self.playing_fits(input)
    }
}

/// Every tick leaves a state of the game a state of the game, wherever among
/// the allowed rows the gap of a new wall is centred: the gap of the one wall
/// stays in those rows and stays sized for the score, which never falls
/// below zero, and the player never rises above the top row.
pub proof fn lemma_tick_keeps_wf(state: StateModel, input: Input, gap_y: int)
    requires
        state.wf(),
        GAP_Y_MIN <= gap_y < GAP_Y_END,
    ensures
        state.tick(input, gap_y).wf(),
        GAP_Y_MIN <= state.tick(input, gap_y).obstacle.gap_y < GAP_Y_END,
        state.tick(input, gap_y).obstacle.size >= NARROWEST_GAP,
{
}

/// A tick that asks to quit changes nothing, and a frame of play never asks.
pub proof fn lemma_quit_changes_nothing(state: StateModel, input: Input, gap_y: int)
    requires
        state.quits(input),
    ensures
        state.tick(input, gap_y) == state,
        state.mode != GameMode::Playing,
{
}

/// While a game runs, a tick never takes the player back or the score down:
/// the player goes one column forward when a physics step is due and stays
/// otherwise, and the score grows by one exactly when the wall is passed.
pub proof fn lemma_play_goes_forward(state: StateModel, input: Input, gap_y: int)
    requires
        state.mode == GameMode::Playing,
    ensures
        state.tick(input, gap_y).player.x == state.player.x + if state.step_due(input) {
            1int
        } else {
            0int
        },
        state.tick(input, gap_y).score == state.score + if state.passed(input) {
            1int
        } else {
            0int
        },
        state.tick(input, gap_y).obstacle.x >= state.tick(input, gap_y).player.x,
        state.tick(input, gap_y).frame_time == state.frame_time + input.elapsed_micros,
{
}

/// The whole game: the player, the one wall ahead, the score and the mode.
#[derive(Clone, Copy, Debug, PartialEq, Eq, Structural)]
pub struct State {
    pub player: Player,
    /// Time accumulated over the frames of this game, in microseconds.
    pub frame_time: u64,
    pub mode: GameMode,
    /// Walls passed in this game.
    pub score: i32,
    pub obstacle: Obstacle,
}

impl View for State {
    type V = StateModel;

    open spec fn view(&self) -> StateModel {
        StateModel {
            player: self.player@,
            frame_time: self.frame_time as int,
            mode: self.mode,
            score: self.score as int,
            obstacle: self.obstacle@,
        }
    }
}

impl State {
    /// The game as the program starts: in the menu, with everything set as
    /// for a new game.
    pub fn new() -> (state: State)
        ensures
            state@ == StateModel::fresh(GameMode::Menu, state.obstacle.gap_y as int),
            state@.wf(),
    {
        State {
            player: Player::new(START_X, START_Y),
            frame_time: 0,
            mode: GameMode::Menu,
            score: 0,
            obstacle: Obstacle::new(SCREEN_WIDTH, 0),
        }
    }

    /// Starts a new game, whatever went before.
    pub fn restart(&mut self)
        ensures
            final(self)@ == StateModel::fresh(GameMode::Playing, final(self).obstacle.gap_y as int),
            final(self)@.wf(),
            final(self).mode == GameMode::Playing,
            final(self).score == 0,
            final(self).frame_time == 0,
            final(self).player == (Player { x: START_X, y: START_Y, velocity: 0 }),
            final(self).obstacle.x == SCREEN_WIDTH,
            final(self).obstacle.size == gap_size(0) == 20,
    {
        self.player = Player::new(START_X, START_Y);
        self.frame_time = 0;
        self.mode = GameMode::Playing;
        self.score = 0;
        self.obstacle = Obstacle::new(SCREEN_WIDTH, 0);
    }

    /// Whether this is a state of the game: what `tick` and the frames of
    /// the three modes take for granted, and keep.
    pub fn is_wf(&self) -> (ok: bool)
        ensures
            ok == self@.wf(),
    {
        self.player.y >= 0 && self.score >= 0 && self.obstacle.is_wf() && self.obstacle.size == (
        if WIDEST_GAP - self.score > NARROWEST_GAP {
            WIDEST_GAP - self.score
        } else {
            NARROWEST_GAP
        })
    }

    /// Whether `tick` may be called with this input: whether the frame
    /// stays within what the machine's integers hold.
    pub fn can_tick(&self, input: Input) -> (ok: bool)
        ensures
            ok == self@.fits(input),
    {
        match self.mode {
            GameMode::Playing => self.can_play(input),
            _ => true,
        }
    }

    /// Whether `playing` may be called with this input.
    pub fn can_play(&self, input: Input) -> (ok: bool)
        ensures
            ok == self@.playing_fits(input),
    {
        if input.elapsed_micros > u64::MAX - self.frame_time {
            return false;
        }
        let due = self.frame_time + input.elapsed_micros > FRAME_DURATION_MICROS;
        let mut x: i64 = self.player.x as i64;
        let mut y: i64 = self.player.y as i64;
        if due {
            let v: i32 = if self.player.velocity < TERMINAL_VELOCITY {
                self.player.velocity + GRAVITY
            } else {
                self.player.velocity
            };
            x = x + 1;
            y = y + Player::rows_per_step(v) as i64;
            if y < 0 {
                y = 0;
            }
        }
        let screen_x: i64 = self.obstacle.x as i64 - x;
        let passed = x > self.obstacle.x as i64;
        x <= i32::MAX as i64 && y <= i32::MAX as i64 && i32::MIN as i64 <= screen_x && screen_x
            <= i32::MAX as i64 && (!passed || (self.score < i32::MAX && x + SCREEN_WIDTH as i64
            <= i32::MAX as i64))
    }

    /// One frame of the menu: shows it, and takes `P` to play or `Q` to quit.
    pub fn main_menu(&mut self, input: Input) -> (frame: Frame)
        requires
            old(self)@.wf(),
        ensures
            final(self)@ == old(self)@.waiting(input, final(self).obstacle.gap_y as int),
            final(self)@.wf(),
            frame.quit == (input.key == Some(Key::Q)),
            drawings(frame.commands@) == StateModel::menu_frame(),
    {
        let mut commands: Vec<DrawCommand> = Vec::new();
        commands.push(DrawCommand::Clear { background: None });
        commands.push(
            DrawCommand::PrintCentered { y: 5, text: String::from_str("Welcome to Flappy Dragon") },
        );
        commands.push(DrawCommand::PrintCentered { y: 8, text: String::from_str("(P) Play Game") });
        commands.push(DrawCommand::PrintCentered { y: 9, text: String::from_str("(Q) Quit Game") });
        assert(drawings(commands@) =~= StateModel::menu_frame());
        let quit = self.play_or_quit(input);
        Frame { commands, quit }
    }

    /// One frame after a loss: shows the final score, and takes `P` to play
    /// again or `Q` to quit.
    pub fn end(&mut self, input: Input) -> (frame: Frame)
        requires
            old(self)@.wf(),
        ensures
            final(self)@ == old(self)@.waiting(input, final(self).obstacle.gap_y as int),
            final(self)@.wf(),
            frame.quit == (input.key == Some(Key::Q)),
            drawings(frame.commands@) == old(self)@.end_frame(),
    {
        let mut commands: Vec<DrawCommand> = Vec::new();
        commands.push(DrawCommand::Clear { background: None });
        commands.push(DrawCommand::PrintCentered { y: 5, text: String::from_str("You are dead") });
        commands.push(DrawCommand::PrintCentered { y: 6, text: earned_text(self.score) });
        commands.push(DrawCommand::PrintCentered { y: 8, text: String::from_str("(P) Play Game") });
        commands.push(DrawCommand::PrintCentered { y: 9, text: String::from_str("(Q) Quit Game") });
        assert(drawings(commands@) =~= self@.end_frame());
        let quit = self.play_or_quit(input);
        Frame { commands, quit }
    }

    /// What the menu and the screen after a loss do with a key: `P` starts
    /// a new game, `Q` asks to quit, anything else is ignored.
    fn play_or_quit(&mut self, input: Input) -> (quit: bool)
        requires
            old(self)@.wf(),
        ensures
            final(self)@ == old(self)@.waiting(input, final(self).obstacle.gap_y as int),
            final(self)@.wf(),
            quit == (input.key == Some(Key::Q)),
    {
        match input.key {
            None => false,
            Some(key) => match key {
                Key::P => {
                    self.restart();
                    false
                },
                Key::Q => true,
                _ => false,
            },
        }
    }

    /// One frame of play: the physics step if one is due, the flap if asked
    /// for, the picture, the score and the next wall once this one is
    /// passed, and the end of the game if it is lost.
    pub fn playing(&mut self, input: Input) -> (frame: Frame)
        requires
            old(self)@.wf(),
            old(self)@.playing_fits(input),
        ensures
            final(self)@ == old(self)@.playing(input, final(self).obstacle.gap_y as int),
            final(self)@.wf(),
            !frame.quit,
            drawings(frame.commands@) == old(self)@.playing_frame(input),
    {
        let mut commands: Vec<DrawCommand> = Vec::new();
        commands.push(DrawCommand::Clear { background: Some(Color::Navy) });
        self.frame_time += input.elapsed_micros;
        if self.frame_time > FRAME_DURATION_MICROS {
            self.player.gravity_to_move();
        }
        if let Some(Key::Space) = input.key {
            self.player.flap();
        }
        commands.push(self.player.render());
        commands.push(
            DrawCommand::Print { x: 0, y: 0, text: String::from_str("Press Space to flap") },
        );
        commands.push(DrawCommand::Print { x: 0, y: 1, text: score_text(self.score) });
        let ghost head = commands@;
        let mut wall = self.obstacle.render(self.player.x);
        let ghost tail = wall@;
        commands.append(&mut wall);
        assert(drawings(commands@) =~= drawings(head) + drawings(tail));
        assert(drawings(head) =~= old(self)@.playing_frame(input).subrange(0, 4));
        assert(drawings(commands@) =~= old(self)@.playing_frame(input));
        if self.player.x > self.obstacle.x {
            self.score += 1;
            self.obstacle = Obstacle::new(self.player.x + SCREEN_WIDTH, self.score);
        }
        if self.player.y > SCREEN_HEIGHT || self.obstacle.hit_obstacle(&self.player) {
            self.mode = GameMode::End;
        }
        Frame { commands, quit: false }
    }

    /// One tick of the game: the frame of the mode it is in.
    pub fn tick(&mut self, input: Input) -> (frame: Frame)
        requires
            old(self)@.wf(),
            old(self)@.fits(input),
        ensures
            final(self)@ == old(self)@.tick(input, final(self).obstacle.gap_y as int),
            final(self)@.wf(),
            frame.quit == old(self)@.quits(input),
            drawings(frame.commands@) == old(self)@.frame(input),
    {
        match self.mode {
            GameMode::Menu => self.main_menu(input),
            GameMode::Playing => self.playing(input),
            GameMode::End => self.end(input),
        }
    }
}

} // verus!
