use vstd::prelude::*;
use crate::GameState;
use crate::camera::follow_player;
use crate::assets::{GameConfig, GameConfigFile, GameConfigLoadError};
use crate::enemy::{
    captured_ids, despawn_flower_when_picked, detect_proximity, ids_increasing, in_world,
    init_flowers, lemma_capture_removes, lemma_without_ids_in_world, without_ids, Enemy,
};
use crate::input::InputState;
use crate::player::{count_picked_flowers, move_player, moved_to, FlowerCount, Player, Position};
use crate::ui::{
    flower_count_text, game_timer_text, spawn_game_over_ui, spawn_hud, summary_text,
    update_flower_count, update_game_timer, GameOverButtonChoice, GameOverUi, Hud,
};

verus! {

/// A one-shot countdown, in milliseconds.
#[derive(Clone, Copy, Debug, PartialEq, Eq, Structural)]
pub struct GameTimer {
    pub remaining: u64,
    pub finished: bool,
}

impl GameTimer {
    /// A timer that is finished has nothing left; one that is not has time left.
    pub open spec fn wf(self) -> bool {
        self.finished <==> self.remaining == 0
    }

    /// The timer after `elapsed` more milliseconds, and whether this tick is
    /// the one that finished it.
    pub open spec fn spec_tick(self, elapsed: u64) -> (GameTimer, bool) {
        let remaining: u64 = if self.remaining > elapsed {
            (self.remaining - elapsed) as u64
        } else {
            0
        };
        (
            GameTimer { remaining, finished: self.finished || remaining == 0 },
            !self.finished && remaining == 0,
        )
    }

    /// A timer that runs for `duration` milliseconds.
    pub fn new(duration: u64) -> (r: GameTimer)
        requires
            duration > 0,
        ensures
            r.wf(),
            r.remaining == duration,
            !r.finished,
    {
        GameTimer { remaining: duration, finished: false }
    }

    /// Advances the timer by `elapsed` milliseconds, never below zero, and
    /// tells whether this call finished it.
    pub fn tick(&mut self, elapsed: u64) -> (just_finished: bool)
        ensures
            (*final(self), just_finished) == old(self).spec_tick(elapsed),
            old(self).wf() ==> final(self).wf(),
    {
        self.remaining = if self.remaining > elapsed {
            self.remaining - elapsed
        } else {
            0
        };
        let just_finished = !self.finished && self.remaining == 0;
        if self.remaining == 0 {
            self.finished = true;
        }
        just_finished
    }

    pub fn remaining_millis(&self) -> (r: u64)
        ensures
            r == self.remaining,
    {
        self.remaining
    }

    pub fn is_finished(&self) -> (r: bool)
        ensures
            r == self.finished,
    {
        self.finished
    }
}

/// The sum of a sequence of tick lengths.
pub open spec fn total(ticks: Seq<u64>) -> int
    decreases ticks.len(),
{
    if ticks.len() == 0 {
        0
    } else {
        ticks[0] + total(ticks.skip(1))
    }
}

proof fn lemma_total_nonnegative(ticks: Seq<u64>)
    ensures
        total(ticks) >= 0,
    decreases ticks.len(),
{
    if ticks.len() > 0 {
        lemma_total_nonnegative(ticks.skip(1));
    }
}

/// The timer after a sequence of ticks, and how many of them finished it.
pub open spec fn run_ticks(t: GameTimer, ticks: Seq<u64>) -> (GameTimer, nat)
    decreases ticks.len(),
{
    if ticks.len() == 0 {
        (t, 0)
    } else {
        let (next, fired) = t.spec_tick(ticks[0]);
        let (last, count) = run_ticks(next, ticks.skip(1));
        (last, count + if fired { 1nat } else { 0nat })
    }
}

/// However a match is cut into ticks, the time left is the duration less the
/// time elapsed, never below zero, and the timer finishes exactly once, on
/// the tick where the elapsed time reaches the time that was left.
pub proof fn lemma_timer_finishes_once(t: GameTimer, ticks: Seq<u64>)
    requires
        t.wf(),
    ensures
        run_ticks(t, ticks).0.wf(),
        run_ticks(t, ticks).0.remaining == if total(ticks) >= t.remaining {
            0
        } else {
            t.remaining - total(ticks)
        },
        run_ticks(t, ticks).0.finished <==> total(ticks) >= t.remaining,
        run_ticks(t, ticks).1 == if !t.finished && total(ticks) >= t.remaining {
            1nat
        } else {
            0nat
        },
    decreases ticks.len(),
{
    if ticks.len() == 0 {
        assert(total(ticks) == 0);
    } else {
        let (next, fired) = t.spec_tick(ticks[0]);
        lemma_timer_finishes_once(next, ticks.skip(1));
        assert(total(ticks) == ticks[0] + total(ticks.skip(1)));
        assert(total(ticks.skip(1)) >= 0) by {
            lemma_total_nonnegative(ticks.skip(1));
        }
    }
}

/// The whole state of the game: its phase, its configuration, the input of
/// this tick, what lives in the world and what is shown.
pub struct Game {
    pub state: GameState,
    pub config: GameConfig,
    pub input: InputState,
    pub player: Option<Player>,
    pub flowers: Vec<Enemy>,
    pub timer: Option<GameTimer>,
    pub hud: Option<Hud>,
    pub game_over_ui: Option<GameOverUi>,
    /// Where the view is centred.
    pub camera: Position,
}

impl Game {
    /// What each phase holds.  While playing, every pickup lies in the world,
    /// their ids increase, and the score plus the pickups left is the number
    /// placed.
    pub open spec fn wf(self) -> bool {
        &&& self.config.wf()
        &&& match self.state {
            GameState::Loading => {
                &&& self.config.loaded is None
                &&& self.player is None
                &&& self.flowers@.len() == 0
                &&& self.timer is None
                &&& self.hud is None
                &&& self.game_over_ui is None
            },
            GameState::Gaming => {
                &&& self.config.loaded is Some
                &&& self.player is Some
                &&& self.timer matches Some(t) && t.wf() && !t.finished
                &&& self.hud is Some
                &&& self.game_over_ui is None
                &&& ids_increasing(self.flowers@)
                &&& forall|i: int| 0 <= i < self.flowers@.len() ==> in_world(
                    #[trigger] self.flowers@[i],
                    self.config.loaded->0.world_size,
                )
                &&& self.player->0.flowers.0 + self.flowers@.len() == self.config.loaded->0.num_flowers
            },
            GameState::GameOver => {
                &&& self.config.loaded is Some
                &&& self.player is None
                &&& self.flowers@.len() == 0
                &&& self.timer is None
                &&& self.hud is None
                &&& self.game_over_ui is Some
            },
        }
    }

    /// A session has just begun under `c`: the player at the origin with no
    /// score, the configured number of pickups in the world, the full time on
    /// the clock, and the status text at its start.
    pub open spec fn fresh_session(self, c: GameConfigFile) -> bool {
        &&& self.state == GameState::Gaming
        &&& self.config.loaded == Some(c)
        &&& self.player == Some(Player { position: Position { x: 0, y: 0 }, flowers: FlowerCount(0) })
        &&& self.flowers@.len() == c.num_flowers
        &&& forall|i: int| 0 <= i < self.flowers@.len() ==> (#[trigger] self.flowers@[i]).id == i
        &&& self.timer == Some(GameTimer { remaining: c.game_time_millis, finished: false })
        &&& self.hud matches Some(h) && h.flower_count_text@ == flower_count_text(0)
            && h.game_timer_text@ == "Ready..."@
        &&& self.game_over_ui is None
    }

    /// Nothing loaded, nothing in the world.
    pub fn new() -> (r: Game)
        ensures
            r.wf(),
            r.state == GameState::Loading,
            r.input.none_pressed(),
            r.camera == (Position { x: 0, y: 0 }),
    {
        Game {
            state: GameState::Loading,
            config: GameConfig::new(),
            input: InputState::new(),
            player: None,
            flowers: Vec::new(),
            timer: None,
            hud: None,
            game_over_ui: None,
            camera: Position { x: 0, y: 0 },
        }
    }

    /// Spawns a session under `c`: the player, the pickups, the timer and the
    /// status text.
    fn enter_gaming(&mut self, c: GameConfigFile)
        requires
            old(self).config.wf(),
            old(self).config.loaded == Some(c),
        ensures
            final(self).wf(),
            final(self).fresh_session(c),
            final(self).input == old(self).input,
            final(self).config == old(self).config,
            final(self).camera == old(self).camera,
    {
        let flowers = init_flowers(&c);
        assert(ids_increasing(flowers@));
        self.flowers = flowers;
        self.player = Some(Player::spawn());
        self.timer = Some(GameTimer::new(c.game_time_millis));
        self.hud = Some(spawn_hud());
        self.game_over_ui = None;
        self.state = GameState::Gaming;
    }

    /// Ends the session: shows the summary with `score` and removes the
    /// player, every pickup, the timer and the status text.
    fn enter_game_over(&mut self, score: u64)
        requires
            old(self).config.wf(),
            old(self).config.loaded is Some,
        ensures
            final(self).wf(),
            final(self).state == GameState::GameOver,
            final(self).game_over_ui matches Some(ui) && ui.score == score && ui.message@ == summary_text(score as nat),
            final(self).input == old(self).input,
            final(self).config == old(self).config,
            final(self).camera == old(self).camera,
    {
        self.game_over_ui = Some(spawn_game_over_ui(score));
        self.player = None;
        self.flowers = Vec::new();
        self.timer = None;
        self.hud = None;
        self.state = GameState::GameOver;
    }

    /// Takes the outcome of loading the configuration.  While loading, a
    /// configuration that loaded starts the first session; a failed load
    /// leaves the game loading.  In any other phase nothing changes.
    pub fn finish_loading(&mut self, outcome: Result<GameConfigFile, GameConfigLoadError>)
        requires
            old(self).wf(),
            outcome matches Ok(c) ==> c.wf(),
        ensures
            final(self).wf(),
            final(self).input == old(self).input,
            old(self).state == GameState::Loading ==> match outcome {
                Ok(c) => final(self).fresh_session(c),
                Err(_) => *final(self) == *old(self),
            },
            old(self).state != GameState::Loading ==> *final(self) == *old(self),
    {
        if self.state != GameState::Loading {
            return;
        }
        match outcome {
            Ok(c) => {
                self.config.finish_load(Ok(c));
                self.enter_gaming(c);
            },
            Err(_) => {},
        }
    }

    /// One tick of `elapsed_ms` milliseconds.  While playing, in order: the
    /// player moves along the input's direction; every pickup within range of
    /// the new position is captured, despawned and scored; the timer runs;
    /// the status text follows.  When the timer finishes on this tick the
    /// session ends: the summary shows the final score and the player and
    /// pickups are gone.  Returns whether the session ended.  Outside play a
    /// tick changes nothing.
    pub fn tick(&mut self, elapsed_ms: u32) -> (ended: bool)
        requires
            old(self).wf(),
        ensures
            final(self).wf(),
            final(self).input == old(self).input,
            final(self).config == old(self).config,
            old(self).state != GameState::Gaming ==> *final(self) == *old(self) && !ended,
            old(self).state == GameState::Gaming ==> ({
                let c = old(self).config.loaded->0;
                let before = old(self).player->0;
                let p = moved_to(before.position, old(self).input.spec_direction(), c.player_move_speed, elapsed_ms);
                let ids = captured_ids(old(self).flowers@, p, c.flower_pickup_range);
                let score: nat = (before.flowers.0 + ids.len()) as nat;
                let (t, fired) = old(self).timer->0.spec_tick(elapsed_ms as u64);
                &&& ended == fired
                &&& !fired ==> {
                    &&& final(self).state == GameState::Gaming
                    &&& final(self).camera == p
                    &&& final(self).player == Some(Player { position: p, flowers: FlowerCount(score as u64) })
                    &&& final(self).flowers@ == without_ids(old(self).flowers@, ids)
                    &&& final(self).timer == Some(t)
                    &&& final(self).hud matches Some(h) && h.flower_count_text@ == flower_count_text(score)
                        && h.game_timer_text@ == game_timer_text(t.remaining as nat)
                }
                &&& fired ==> {
                    &&& final(self).state == GameState::GameOver
                    &&& final(self).camera == old(self).camera
                    &&& final(self).player is None
                    &&& final(self).flowers@.len() == 0
                    &&& final(self).timer is None
                    &&& final(self).game_over_ui matches Some(ui) && ui.score == score
                        && ui.message@ == summary_text(score)
                }
            }),
    {
        if self.state != GameState::Gaming {
            return false;
        }
        let c: GameConfigFile = match self.config.get() {
            Some(c) => *c,
            None => return false,
        };
        let mut player: Player = match self.player {
            Some(p) => p,
            None => return false,
        };
        let mut timer: GameTimer = match self.timer {
            Some(t) => t,
            None => return false,
        };
        let ghost before = self.flowers@;
        move_player(&mut player, &self.input, c.player_move_speed, elapsed_ms);
        let events = detect_proximity(player.position, &self.flowers, c.flower_pickup_range);
        despawn_flower_when_picked(&mut self.flowers, &events);
        proof {
            lemma_capture_removes(before, player.position, c.flower_pickup_range);
            assert(events@.len() == captured_ids(before, player.position, c.flower_pickup_range).len());
        }
        count_picked_flowers(&mut player, &events);
        let fired = timer.tick(elapsed_ms as u64);
        if fired {
            self.enter_game_over(player.flowers.0);
            return true;
        }
        let mut hud: Hud = match self.hud.take() {
            Some(h) => h,
            None => spawn_hud(),
        };
        update_flower_count(&mut hud, player.flowers.0);
        update_game_timer(&mut hud, timer.remaining_millis());
        self.hud = Some(hud);
        self.player = Some(player);
        self.timer = Some(timer);
        follow_player(&mut self.camera, Some(player.position));
        proof {
            let rest = self.flowers@;
            assert forall|i: int| 0 <= i < rest.len() implies in_world(#[trigger] rest[i], c.world_size) by {
                lemma_without_ids_in_world(before, captured_ids(before, player.position, c.flower_pickup_range), c.world_size, i);
            }
        }
        false
    }

    /// Acts on the choice made on the summary screen: Retry starts a fresh
    /// session, with new pickups and no score; Exit asks the host to end the
    /// process and changes nothing.  Returns whether to exit.  Outside the
    /// summary screen nothing happens.
    pub fn handle_button_interaction(&mut self, choice: GameOverButtonChoice) -> (exit: bool)
        requires
            old(self).wf(),
        ensures
            final(self).wf(),
            final(self).input == old(self).input,
            final(self).config == old(self).config,
            exit == (old(self).state == GameState::GameOver && choice == GameOverButtonChoice::Exit),
            old(self).state == GameState::GameOver && choice == GameOverButtonChoice::Retry
                ==> final(self).fresh_session(old(self).config.loaded->0),
            !(old(self).state == GameState::GameOver && choice == GameOverButtonChoice::Retry)
                ==> *final(self) == *old(self),
    {
        if self.state != GameState::GameOver {
            return false;
        }
        match choice {
            GameOverButtonChoice::Retry => {
                match self.config.get() {
                    Some(c) => {
                        let c = *c;
                        self.enter_gaming(c);
                    },
                    None => {},
                }
                false
            },
            GameOverButtonChoice::Exit => true,
        }
    }
}

/// While playing, the score is the number of pickups captured so far: the
/// number placed less the number left, however the captures fell into
/// ticks.  A tick that goes on playing adds exactly its captures.
pub proof fn lemma_score_counts_captures(g: Game, elapsed_ms: u32, next: Game)
    requires
        g.wf(),
        g.state == GameState::Gaming,
        next.state == GameState::Gaming,
        next.wf(),
        next.config == g.config,
        next.flowers@ == without_ids(
            g.flowers@,
            captured_ids(
                g.flowers@,
                moved_to(g.player->0.position, g.input.spec_direction(), g.config.loaded->0.player_move_speed, elapsed_ms),
                g.config.loaded->0.flower_pickup_range,
            ),
        ),
    ensures
        g.player->0.flowers.0 == g.config.loaded->0.num_flowers - g.flowers@.len(),
        next.player->0.flowers.0 == g.player->0.flowers.0 + captured_ids(
            g.flowers@,
            moved_to(g.player->0.position, g.input.spec_direction(), g.config.loaded->0.player_move_speed, elapsed_ms),
            g.config.loaded->0.flower_pickup_range,
        ).len(),
{
    let c = g.config.loaded->0;
    let p = moved_to(g.player->0.position, g.input.spec_direction(), c.player_move_speed, elapsed_ms);
    lemma_capture_removes(g.flowers@, p, c.flower_pickup_range);
}

} // verus!
