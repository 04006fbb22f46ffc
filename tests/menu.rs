use game_menu::host::Request;
use game_menu::{handle_events, Actions, GameCfg, GameState, ItemKind, Layout, Platform, Screens};

fn cfg_with(num: u8, boolean: bool, outcome: Option<bool>) -> GameCfg {
    GameCfg { boolean, new_game: false, outcome, num }
}

fn labels(screen: Screens, cfg: &GameCfg, platform: Platform) -> Vec<&'static str> {
    screen.resolve(cfg, platform).items.iter().map(|i| i.label).collect()
}

#[test]
fn default_config() {
    let c = GameCfg::default();
    assert!(c.boolean);
    assert!(!c.new_game);
    assert_eq!(c.outcome, None);
    assert_eq!(c.num, 3);
}

#[test]
fn num_screen_offers_three_to_five() {
    for num in 3u8..=5 {
        let c = cfg_with(num, true, None);
        let m = Screens::Num.resolve(&c, Platform::Native);
        assert_eq!(m.title, "Num");
        assert_eq!(m.items.len(), 4);
        assert_eq!(m.items[0].kind, ItemKind::Headline);
        assert_eq!(m.items[0].label, "Num");
        let mut offered = Vec::new();
        let mut checked = 0;
        for item in &m.items[1..] {
            match item.kind {
                ItemKind::Action(Actions::SetNum(n)) => {
                    offered.push(n);
                    assert_eq!(item.checked, Some(n == num));
                    assert_eq!(item.label, format!("{n}"));
                    if item.checked == Some(true) {
                        checked += 1;
                    }
                }
                other => panic!("unexpected entry {other:?}"),
            }
        }
        assert_eq!(offered, vec![3, 4, 5]);
        assert_eq!(checked, 1);
    }
}

#[test]
fn num_screen_marks_nothing_out_of_range() {
    let m = Screens::Num.resolve(&cfg_with(9, true, None), Platform::Web);
    assert!(m.items.iter().all(|i| i.checked != Some(true)));
}

#[test]
fn toggle_boolean_twice() {
    let mut c = cfg_with(4, false, Some(true));
    let before = c;
    assert_eq!(Actions::SetBoolean.handle(&mut c), None);
    assert!(c.boolean);
    assert_eq!(Actions::SetBoolean.handle(&mut c), None);
    assert_eq!(c, before);
}

#[test]
fn set_num_overwrites() {
    for start in 3u8..=5 {
        for n in 3u8..=5 {
            let mut c = cfg_with(start, true, None);
            assert_eq!(Actions::SetNum(n).handle(&mut c), None);
            assert_eq!(c.num, n);
            assert!(c.boolean);
        }
    }
}

#[test]
fn resume_and_new_game_go_to_game() {
    let mut c = GameCfg::default();
    assert_eq!(Actions::Resume.handle(&mut c), Some(Actions::Resume));
    assert_eq!(c, GameCfg::default());
    assert_eq!(Actions::NewGame.handle(&mut c), Some(Actions::NewGame));
    assert!(c.new_game);
    let t = handle_events(&vec![Actions::Resume, Actions::NewGame], true, Platform::Native);
    assert!(t.sync_config);
    assert_eq!(t.requests, vec![Request::Goto(GameState::Game), Request::Goto(GameState::Game)]);
}

#[test]
fn pause_goes_to_menu() {
    let mut c = cfg_with(5, false, None);
    assert_eq!(Actions::Pause.handle(&mut c), Some(Actions::Pause));
    assert_eq!(c, cfg_with(5, false, None));
    let t = handle_events(&vec![Actions::Pause], false, Platform::Web);
    assert!(!t.sync_config);
    assert_eq!(t.requests, vec![Request::Goto(GameState::Menu)]);
}

#[test]
fn settings_make_no_request() {
    let t = handle_events(&vec![Actions::SetBoolean, Actions::SetNum(4)], true, Platform::Native);
    assert!(t.sync_config);
    assert!(t.requests.is_empty());
    let t = handle_events(&vec![], true, Platform::Native);
    assert!(!t.sync_config);
    assert!(t.requests.is_empty());
}

#[test]
fn quit_exits_once_per_event() {
    let events = vec![Actions::Quit, Actions::Pause, Actions::Quit];
    let t = handle_events(&events, true, Platform::Native);
    assert_eq!(t.requests, vec![Request::Exit, Request::Goto(GameState::Menu), Request::Exit]);
    let t = handle_events(&events, true, Platform::Web);
    assert_eq!(t.requests, vec![Request::Goto(GameState::Menu)]);
}

#[test]
fn quit_offered_only_where_exit_is_possible() {
    let c = GameCfg::default();
    assert_eq!(
        labels(Screens::Pause, &c, Platform::Native),
        vec!["Paused", "Resume", "New Game", "Quit"]
    );
    assert_eq!(labels(Screens::Pause, &c, Platform::Web), vec!["Paused", "Resume", "New Game"]);
    assert_eq!(
        labels(Screens::GameOver, &c, Platform::Native),
        vec!["Game Over", "New Game", "Quit"]
    );
    assert_eq!(labels(Screens::GameOver, &c, Platform::Web), vec!["Game Over", "New Game"]);
    let m = Screens::Pause.resolve(&c, Platform::Native);
    assert_eq!(m.items[3].kind, ItemKind::Action(Actions::Quit));
}

#[test]
fn new_game_screen() {
    let c = cfg_with(3, false, None);
    let m = Screens::NewGame.resolve(&c, Platform::Native);
    assert_eq!(m.title, "NewGame");
    assert_eq!(
        labels(Screens::NewGame, &c, Platform::Native),
        vec!["YourGame", "Start a New Game", "Configuration", "Boolean", "Num"]
    );
    assert_eq!(m.items[1].kind, ItemKind::Action(Actions::NewGame));
    assert_eq!(m.items[2].kind, ItemKind::Label);
    assert_eq!(m.items[3].kind, ItemKind::Action(Actions::SetBoolean));
    assert_eq!(m.items[3].checked, Some(false));
    assert_eq!(m.items[4].kind, ItemKind::Screen(Screens::Num));
    assert_eq!(m.items[4].checked, None);
}

#[test]
fn game_screen() {
    let m = Screens::Game.resolve(&GameCfg::default(), Platform::Web);
    assert_eq!(m.title, "Game");
    assert_eq!(m.items.len(), 1);
    assert_eq!(m.items[0].label, "Pause");
    assert_eq!(m.items[0].kind, ItemKind::Action(Actions::Pause));
}

#[test]
fn layout_titles() {
    for outcome in [None, Some(true), Some(false)] {
        let l = Layout::for_state(GameState::Game, &cfg_with(3, true, outcome));
        assert_eq!(l.title, "YourGame");
        assert_eq!(l.screen, Screens::Game);
        assert!(l.absolute);
    }
    let l = Layout::for_state(GameState::Menu, &cfg_with(3, true, Some(false)));
    assert_eq!(l.title, "YourGame - GameOver");
    assert_eq!(l.screen, Screens::GameOver);
    assert!(!l.absolute);
    let l = Layout::for_state(GameState::Menu, &cfg_with(3, true, None));
    assert_eq!(l.title, "YourGame - Paused");
    assert_eq!(l.screen, Screens::Pause);
    assert!(!l.absolute);
}
