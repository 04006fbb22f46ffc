use vstd::prelude::*;

verus! {

/// Settings of the game that the menu lets the player change, and the flags
/// that the menu and the game exchange.
#[derive(Clone, Copy, Debug, PartialEq, Eq, Structural)]
pub struct GameCfg {
    pub boolean: bool,
    /// Set when the player asked for a new game.
    pub new_game: bool,
    /// `Some(_)` once a game has ended.
    pub outcome: Option<bool>,
    /// A numeric setting; the menu offers 3, 4 and 5.
    pub num: u8,
}

/// The smallest value the menu offers for `num`.
pub const NUM_MIN: u8 = 3;

/// The largest value the menu offers for `num`.
pub const NUM_MAX: u8 = 5;

impl GameCfg {
    /// `num` holds one of the values the menu offers.
    pub open spec fn wf(&self) -> bool {
        NUM_MIN <= self.num <= NUM_MAX
    }
}

impl Default for GameCfg {
    fn default() -> (r: GameCfg)
        ensures
            r.boolean,
            !r.new_game,
            r.outcome is None,
            r.num == NUM_MIN,
            r.wf(),
    {
        GameCfg { boolean: true, new_game: false, outcome: None, num: NUM_MIN }
    }
}

/// The platform the game runs on: a web embedding cannot exit the
/// application, so the menu offers no way to quit there.
#[derive(Clone, Copy, Debug, PartialEq, Eq, Structural)]
pub enum Platform {
    Native,
    Web,
}

impl Platform {
    pub open spec fn can_exit(self) -> bool {
        self is Native
    }
}

/// What a button of the menu does.
#[derive(Clone, Copy, Debug, PartialEq, Eq, Structural, Hash)]
pub enum Actions {
    Resume,
    Pause,
    /// Leave the application; not offered where the platform cannot exit.
    Quit,
    NewGame,
    SetBoolean,
    SetNum(u8),
}

impl Actions {
    /// The configuration after `a` was handled on `cfg`.
    pub open spec fn apply(a: Actions, cfg: GameCfg) -> GameCfg {
        match a {
            Actions::NewGame => GameCfg { new_game: true, ..cfg },
            Actions::SetBoolean => GameCfg { boolean: !cfg.boolean, ..cfg },
            Actions::SetNum(n) => GameCfg { num: n, ..cfg },
            _ => cfg,
        }
    }

    /// Whether handling `a` passes it on to the host as an event.
    pub open spec fn forwards(a: Actions) -> bool {
        match a {
            Actions::Resume | Actions::Pause | Actions::Quit | Actions::NewGame => true,
            _ => false,
        }
    }

    /// Handles a pressed button: updates the configuration and returns the
    /// event to pass on to the host, if any.
    pub fn handle(&self, state: &mut GameCfg) -> (event: Option<Actions>)
        ensures
            *final(state) == Self::apply(*self, *old(state)),
            event == (if Self::forwards(*self) { Some(*self) } else { None::<Actions> }),
    {
        match self {
            Actions::Pause | Actions::Resume | Actions::Quit => Some(*self),
            Actions::NewGame => {
                state.new_game = true;
                Some(*self)
            },
            Actions::SetBoolean => {
                state.boolean = !state.boolean;
                None
            },
            Actions::SetNum(x) => {
                state.num = *x;
                None
            },
        }
    }
}

} // verus!
