use vstd::prelude::*;

use crate::config::{Actions, GameCfg, Platform, NUM_MAX, NUM_MIN};

verus! {

/// The menu layouts. One of them is shown at any time:
/// - `Game` while the game is being played;
/// - `NewGame`, `Pause` or `GameOver` while the menu is up, before a game,
///   during a game and after it;
/// - `Num`, a sub-screen of `NewGame`, to pick `num`.
#[derive(Clone, Copy, Debug, PartialEq, Eq, Structural, Hash)]
pub enum Screens {
    Game,
    Pause,
    NewGame,
    GameOver,
    Num,
}

/// What an entry of a menu is.
#[derive(Clone, Copy, Debug, PartialEq, Eq, Structural)]
pub enum ItemKind {
    /// A title line; not selectable.
    Headline,
    /// A plain line of text; not selectable.
    Label,
    /// A button that triggers an action.
    Action(Actions),
    /// A button that opens another screen.
    Screen(Screens),
}

/// One entry of a menu: its text, what it is and, for a setting, whether it
/// is shown as checked.
#[derive(Clone, Copy, Debug)]
pub struct MenuItem {
    pub label: &'static str,
    pub kind: ItemKind,
    pub checked: Option<bool>,
}

/// A menu entry as a value: the characters of its label.
pub ghost struct ItemView {
    pub label: Seq<char>,
    pub kind: ItemKind,
    pub checked: Option<bool>,
}

impl View for MenuItem {
    type V = ItemView;

    open spec fn view(&self) -> ItemView {
        ItemView { label: self.label@, kind: self.kind, checked: self.checked }
    }
}

/// A whole menu: its identifier and its entries in display order.
#[derive(Clone, Debug)]
pub struct Menu {
    pub title: &'static str,
    pub items: Vec<MenuItem>,
}

pub ghost struct MenuView {
    pub title: Seq<char>,
    pub items: Seq<ItemView>,
}

impl View for Menu {
    type V = MenuView;

    open spec fn view(&self) -> MenuView {
        MenuView { title: self.title@, items: self.items@.map_values(|i: MenuItem| i@) }
    }
}

pub open spec fn entry(label: Seq<char>, kind: ItemKind) -> ItemView {
    ItemView { label, kind, checked: None }
}

/// The text of the button that sets `num` to `n`.
pub open spec fn num_text(n: u8) -> Seq<char> {
    if n == 3 {
        "3"@
    } else if n == 4 {
        "4"@
    } else {
        "5"@
    }
}

/// The button that sets `num` to `n`, checked when `num` already is `n`.
pub open spec fn num_entry(n: u8, cfg: GameCfg) -> ItemView {
    ItemView {
        label: num_text(n),
        kind: ItemKind::Action(Actions::SetNum(n)),
        checked: Some(cfg.num == n),
    }
}

/// The quit button where the platform can exit, nothing elsewhere.
pub open spec fn quit_entries(p: Platform) -> Seq<ItemView> {
    if p.can_exit() {
        seq![entry("Quit"@, ItemKind::Action(Actions::Quit))]
    } else {
        seq![]
    }
}

impl Screens {
    pub open spec fn title_of(s: Screens) -> Seq<char> {
        match s {
            Screens::Game => "Game"@,
            Screens::Pause => "Pause"@,
            Screens::NewGame => "NewGame"@,
            Screens::GameOver => "GameOver"@,
            Screens::Num => "Num"@,
        }
    }

    /// The entries of screen `s` for configuration `cfg` on platform `p`.
    pub open spec fn entries(s: Screens, cfg: GameCfg, p: Platform) -> Seq<ItemView> {
        match s {
            Screens::Pause => seq![
                entry("Paused"@, ItemKind::Headline),
                entry("Resume"@, ItemKind::Action(Actions::Resume)),
                entry("New Game"@, ItemKind::Screen(Screens::NewGame)),
            ] + quit_entries(p),
            Screens::Game => seq![entry("Pause"@, ItemKind::Action(Actions::Pause))],
            Screens::GameOver => seq![
                entry("Game Over"@, ItemKind::Headline),
                entry("New Game"@, ItemKind::Screen(Screens::NewGame)),
            ] + quit_entries(p),
            Screens::NewGame => seq![
                entry("YourGame"@, ItemKind::Headline),
                entry("Start a New Game"@, ItemKind::Action(Actions::NewGame)),
                entry("Configuration"@, ItemKind::Label),
                ItemView {
                    label: "Boolean"@,
                    kind: ItemKind::Action(Actions::SetBoolean),
                    checked: Some(cfg.boolean),
                },
                entry("Num"@, ItemKind::Screen(Screens::Num)),
            ],
            Screens::Num => seq![
                entry("Num"@, ItemKind::Headline),
                num_entry(3, cfg),
                num_entry(4, cfg),
                num_entry(5, cfg),
            ],
        }
    }

    /// The identifier of the screen's menu: the name of the variant.
    pub fn title(&self) -> (r: &'static str)
        ensures
            r@ == Self::title_of(*self),
    {
        match self {
            Screens::Game => "Game",
            Screens::Pause => "Pause",
            Screens::NewGame => "NewGame",
            Screens::GameOver => "GameOver",
            Screens::Num => "Num",
        }
    }

    /// Builds the menu that this screen shows for `state` on `platform`.
    pub fn resolve(&self, state: &GameCfg, platform: Platform) -> (r: Menu)
        ensures
            r@ == (MenuView {
                title: Self::title_of(*self),
                items: Self::entries(*self, *state, platform),
            }),
    {
        let mut items: Vec<MenuItem> = Vec::new();
        match self {
            Screens::Pause => {
                items.push(plain("Paused", ItemKind::Headline));
                items.push(plain("Resume", ItemKind::Action(Actions::Resume)));
                items.push(plain("New Game", ItemKind::Screen(Screens::NewGame)));
                push_quit(&mut items, platform);
            },
            Screens::Game => {
                items.push(plain("Pause", ItemKind::Action(Actions::Pause)));
            },
            Screens::GameOver => {
                items.push(plain("Game Over", ItemKind::Headline));
                items.push(plain("New Game", ItemKind::Screen(Screens::NewGame)));
                push_quit(&mut items, platform);
            },
            Screens::NewGame => {
                items.push(plain("YourGame", ItemKind::Headline));
                items.push(plain("Start a New Game", ItemKind::Action(Actions::NewGame)));
                items.push(plain("Configuration", ItemKind::Label));
                items.push(
                    MenuItem {
                        label: "Boolean",
                        kind: ItemKind::Action(Actions::SetBoolean),
                        checked: Some(state.boolean),
                    },
                );
                items.push(plain("Num", ItemKind::Screen(Screens::Num)));
            },
            Screens::Num => {
                items.push(plain("Num", ItemKind::Headline));
                let mut n: u8 = NUM_MIN;
                while n <= NUM_MAX
                    invariant
                        NUM_MIN <= n <= NUM_MAX + 1,
                        items@.len() == 1 + (n - NUM_MIN),
                        items@[0]@ == entry("Num"@, ItemKind::Headline),
                        forall|k: int|
                            1 <= k < items@.len() ==> #[trigger] items@[k]@ == num_entry(
                                (NUM_MIN + k - 1) as u8,
                                *state,
                            ),
                    decreases NUM_MAX + 1 - n,
                {
                    items.push(
                        MenuItem {
                            label: num_label(n),
                            kind: ItemKind::Action(Actions::SetNum(n)),
                            checked: Some(state.num == n),
                        },
                    );
                    n = n + 1;
                }
            },
        }
        let r = Menu { title: self.title(), items };
        assert(r@.items =~= Self::entries(*self, *state, platform));
        r
    }
}

fn plain(label: &'static str, kind: ItemKind) -> (r: MenuItem)
    ensures
        r@ == entry(label@, kind),
{
    MenuItem { label, kind, checked: None }
}

fn push_quit(items: &mut Vec<MenuItem>, platform: Platform)
    ensures
        final(items)@.map_values(|i: MenuItem| i@) == old(items)@.map_values(|i: MenuItem| i@)
            + quit_entries(platform),
{
    let ghost before = items@;
    if let Platform::Native = platform {
        items.push(plain("Quit", ItemKind::Action(Actions::Quit)));
    }
    assert(items@.map_values(|i: MenuItem| i@) =~= before.map_values(|i: MenuItem| i@)
        + quit_entries(platform));
}

/// The text of the button that sets `num` to `n`.
fn num_label(n: u8) -> (r: &'static str)
    requires
        NUM_MIN <= n <= NUM_MAX,
    ensures
        r@ == num_text(n),
{
    if n == 3 {
        "3"
    } else if n == 4 {
        "4"
    } else {
        "5"
    }
}

} // verus!
