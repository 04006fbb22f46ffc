//! Game menu logic: the configuration record that the menu edits, the actions
//! that its buttons carry, the screens that it shows and the requests that it
//! makes of the host game.

pub mod config;
pub mod host;
pub mod laws;
pub mod screens;

pub use config::{Actions, GameCfg, Platform, NUM_MAX, NUM_MIN};
pub use laws::{
    count_exits, count_quits, lemma_no_quit_on_web, lemma_num_screen, lemma_pause, lemma_quit_exits,
    lemma_resume_and_new_game, lemma_set_num, lemma_toggle_twice,
};
pub use host::{handle_events, GameState, Layout, Request, Tick};
pub use screens::{ItemKind, ItemView, Menu, MenuItem, MenuView, Screens};
