use vstd::prelude::*;

verus! {

/// How many position units make one world unit: positions, lengths and
/// speeds are kept in thousandths of a world unit.
pub const UNIT: u32 = 1000;

/// The tuning data of a match.  Lengths are in thousandths of a world unit,
/// the speed in thousandths of a world unit per second, the match length in
/// milliseconds.
#[derive(Clone, Copy, Debug, PartialEq, Eq, Structural)]
pub struct GameConfigFile {
    pub player_move_speed: u32,
    /// Half the side of the square that pickups are placed in.
    pub world_size: u32,
    pub num_flowers: u32,
    pub flower_pickup_range: u32,
    pub game_time_millis: u64,
}

/// Why a configuration could not be had.
#[derive(Clone, Copy, Debug, PartialEq, Eq, Structural)]
pub enum GameConfigLoadError {
    /// The file is not a well-formed record of the expected fields.
    ParseError,
    /// The file could not be read.
    ReadError,
    /// A field is zero or negative.
    InvalidValue,
}

impl GameConfigFile {
    /// Every field is positive.
    pub open spec fn wf(self) -> bool {
        self.player_move_speed > 0 && self.world_size > 0 && self.num_flowers > 0
            && self.flower_pickup_range > 0 && self.game_time_millis > 0
    }

    /// Builds a configuration from its fields, refusing one with a field that
    /// is not positive.
    pub fn new(
        player_move_speed: u32,
        world_size: u32,
        num_flowers: u32,
        flower_pickup_range: u32,
        game_time_millis: u64,
    ) -> (r: Result<GameConfigFile, GameConfigLoadError>)
        ensures
            r matches Ok(c) ==> c.wf() && c == (GameConfigFile {
                player_move_speed,
                world_size,
                num_flowers,
                flower_pickup_range,
                game_time_millis,
            }),
            r is Ok <==> (player_move_speed > 0 && world_size > 0 && num_flowers > 0
                && flower_pickup_range > 0 && game_time_millis > 0),
            r is Err ==> r == Err::<GameConfigFile, GameConfigLoadError>(GameConfigLoadError::InvalidValue),
    {
        if player_move_speed == 0 || world_size == 0 || num_flowers == 0 || flower_pickup_range == 0
            || game_time_millis == 0 {
            Err(GameConfigLoadError::InvalidValue)
        } else {
            Ok(GameConfigFile {
                player_move_speed,
                world_size,
                num_flowers,
                flower_pickup_range,
                game_time_millis,
            })
        }
    }
}

/// Holds the configuration once it has been loaded; it is read-only after.
#[derive(Clone, Copy, Debug)]
pub struct GameConfig {
    pub loaded: Option<GameConfigFile>,
}

impl GameConfig {
    pub open spec fn wf(self) -> bool {
        self.loaded matches Some(c) ==> c.wf()
    }

    /// A store that holds no configuration yet.
    pub fn new() -> (r: GameConfig)
        ensures
            r.loaded is None,
    {
        GameConfig { loaded: None }
    }

    /// Keeps the outcome of a load: the configuration if it loaded, nothing if
    /// it did not.  A configuration already held is never replaced.
    pub fn finish_load(&mut self, outcome: Result<GameConfigFile, GameConfigLoadError>)
        requires
            old(self).wf(),
            outcome matches Ok(c) ==> c.wf(),
        ensures
            final(self).wf(),
            old(self).loaded is Some ==> *final(self) == *old(self),
            old(self).loaded is None ==> final(self).loaded == (match outcome {
                Ok(c) => Some(c),
                Err(_) => None::<GameConfigFile>,
            }),
    {
        if self.loaded.is_none() {
            match outcome {
                Ok(c) => self.loaded = Some(c),
                Err(_) => {},
            }
        }
    }

    pub fn get(&self) -> (r: Option<&GameConfigFile>)
        ensures
            r == match self.loaded {
                Some(c) => Some(&c),
                None => None::<&GameConfigFile>,
            },
    {
        match &self.loaded {
            Some(c) => Some(c),
            None => None,
        }
    }
}

} // verus!
