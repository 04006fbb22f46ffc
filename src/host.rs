use vstd::prelude::*;

use crate::config::{Actions, GameCfg, Platform};
use crate::screens::Screens;

verus! {

/// The host game's top-level mode.
#[derive(Clone, Copy, Debug, PartialEq, Eq, Structural, Hash)]
pub enum GameState {
    Menu,
    Game,
}

/// What the menu shows after the host entered or left `GameState::Game`:
/// the window title, the screen, and whether the menu panel floats over the
/// game (`absolute`) rather than taking the layout's default place.
#[derive(Clone, Copy, Debug)]
pub struct Layout {
    pub title: &'static str,
    pub screen: Screens,
    pub absolute: bool,
}

pub open spec fn playing_title() -> Seq<char> {
    "YourGame"@
}

pub open spec fn game_over_title() -> Seq<char> {
    "YourGame - GameOver"@
}

pub open spec fn paused_title() -> Seq<char> {
    "YourGame - Paused"@
}

/// A request that the menu makes of the host.
#[derive(Clone, Copy, Debug, PartialEq, Eq, Structural)]
pub enum Request {
    /// Move the host to this state on its next transition.
    Goto(GameState),
    /// Exit the application.
    Exit,
}

/// What a tick of the menu asks of the host: whether to copy the menu's
/// working configuration back into the shared one, and the requests to carry
/// out, in order.
#[derive(Clone, Debug)]
pub struct Tick {
    pub sync_config: bool,
    pub requests: Vec<Request>,
}

/// The request that the event `a` makes on platform `p`, if any.
pub open spec fn request_of(a: Actions, p: Platform) -> Option<Request> {
    match a {
        Actions::Resume | Actions::NewGame => Some(Request::Goto(GameState::Game)),
        Actions::Pause => Some(Request::Goto(GameState::Menu)),
        Actions::Quit => if p.can_exit() {
            Some(Request::Exit)
        } else {
            None
        },
        _ => None,
    }
}

/// The requests that the events `es` make, in order.
pub open spec fn requests_of(es: Seq<Actions>, p: Platform) -> Seq<Request>
    decreases es.len(),
{
    if es.len() == 0 {
        seq![]
    } else {
        let rest = requests_of(es.drop_last(), p);
        match request_of(es.last(), p) {
            Some(r) => rest.push(r),
            None => rest,
        }
    }
}

impl Layout {
    /// The layout for host state `state` and configuration `cfg`.
    pub fn for_state(state: GameState, cfg: &GameCfg) -> (r: Layout)
        ensures
            state == GameState::Game ==> r.title@ == playing_title() && r.screen == Screens::Game
                && r.absolute,
            state == GameState::Menu && cfg.outcome is Some ==> r.title@ == game_over_title()
                && r.screen == Screens::GameOver && !r.absolute,
            state == GameState::Menu && cfg.outcome is None ==> r.title@ == paused_title()
                && r.screen == Screens::Pause && !r.absolute,
    {
        if let GameState::Game = state {
            Layout { title: "YourGame", screen: Screens::Game, absolute: true }
        } else if cfg.outcome.is_some() {
            Layout { title: "YourGame - GameOver", screen: Screens::GameOver, absolute: false }
        } else {
            Layout { title: "YourGame - Paused", screen: Screens::Pause, absolute: false }
        }
    }
}

impl Actions {
    /// The request that this event makes of the host on `platform`.
    pub fn request(&self, platform: Platform) -> (r: Option<Request>)
        ensures
            r == request_of(*self, platform),
    {
        match self {
            Actions::Resume | Actions::NewGame => Some(Request::Goto(GameState::Game)),
            Actions::Pause => Some(Request::Goto(GameState::Menu)),
            Actions::Quit => {
                if let Platform::Native = platform {
                    Some(Request::Exit)
                } else {
                    None
                }
            },
            _ => None,
        }
    }
}

/// Handles the events that the menu emitted during one tick. `has_snapshot`
/// tells whether the menu holds a working copy of the configuration.
pub fn handle_events(events: &Vec<Actions>, has_snapshot: bool, platform: Platform) -> (r: Tick)
    ensures
        r.sync_config == (has_snapshot && events@.len() > 0),
        r.requests@ == requests_of(events@, platform),
{
    let mut requests: Vec<Request> = Vec::new();
    let mut i: usize = 0;
    while i < events.len()
        invariant
            i <= events@.len(),
            requests@ == requests_of(events@.subrange(0, i as int), platform),
        decreases events@.len() - i,
    {
        assert(events@.subrange(0, i + 1).drop_last() =~= events@.subrange(0, i as int));
        if let Some(q) = events[i].request(platform) {
            requests.push(q);
        }
        i = i + 1;
    }
    assert(events@.subrange(0, events@.len() as int) =~= events@);
    Tick { sync_config: has_snapshot && events.len() > 0, requests }
}

} // verus!
