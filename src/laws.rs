use vstd::prelude::*;

use crate::config::{Actions, GameCfg, Platform};
use crate::host::{request_of, requests_of, GameState, Request};
use crate::screens::{ItemKind, Screens};

verus! {

/// How many of `es` are `Quit`.
pub open spec fn count_quits(es: Seq<Actions>) -> nat
    decreases es.len(),
{
    if es.len() == 0 {
        0
    } else {
        count_quits(es.drop_last()) + if es.last() == Actions::Quit {
            1nat
        } else {
            0nat
        }
    }
}

/// How many of `rs` are `Exit`.
pub open spec fn count_exits(rs: Seq<Request>) -> nat
    decreases rs.len(),
{
    if rs.len() == 0 {
        0
    } else {
        count_exits(rs.drop_last()) + if rs.last() == Request::Exit {
            1nat
        } else {
            0nat
        }
    }
}

/// The `Num` screen offers exactly the values 3, 4 and 5, marks each as
/// checked exactly when it is the current `num`, and so marks exactly one of
/// them when `num` is one of those values.
pub proof fn lemma_num_screen(cfg: GameCfg, p: Platform)
    ensures
        ({
            let items = Screens::entries(Screens::Num, cfg, p);
            &&& Set::new(
                |n: u8|
                    exists|i: int|
                        0 <= i < items.len() && items[i].kind == ItemKind::Action(
                            Actions::SetNum(n),
                        ),
            ) == set![3u8, 4u8, 5u8]
            &&& forall|i: int, n: u8|
                0 <= i < items.len() && items[i].kind == ItemKind::Action(Actions::SetNum(n))
                    ==> items[i].checked == Some(n == cfg.num)
            &&& forall|i: int, j: int|
                0 <= i < items.len() && 0 <= j < items.len() && items[i].checked == Some(true)
                    && items[j].checked == Some(true) ==> i == j
            &&& cfg.wf() ==> exists|i: int|
                0 <= i < items.len() && items[i].checked == Some(true)
        }),
{
    let items = Screens::entries(Screens::Num, cfg, p);
    let offered = Set::new(
        |n: u8|
            exists|i: int|
                0 <= i < items.len() && items[i].kind == ItemKind::Action(Actions::SetNum(n)),
    );
    assert forall|n: u8| offered.contains(n) <==> set![3u8, 4u8, 5u8].contains(n) by {
        if n == 3 || n == 4 || n == 5 {
            assert(items[n - 2].kind == ItemKind::Action(Actions::SetNum(n)));
        }
    }
    assert(offered =~= set![3u8, 4u8, 5u8]);
    if cfg.wf() {
        assert(items[cfg.num - 2].checked == Some(true));
    }
}

/// Handling `SetBoolean` twice gives back the configuration it started from.
pub proof fn lemma_toggle_twice(cfg: GameCfg)
    ensures
        Actions::apply(Actions::SetBoolean, Actions::apply(Actions::SetBoolean, cfg)) == cfg,
{
}

/// Handling `SetNum(n)` sets `num` to `n`, whatever it was, and leaves the
/// rest of the configuration as it was.
pub proof fn lemma_set_num(cfg: GameCfg, n: u8)
    requires
        3 <= n <= 5,
    ensures
        Actions::apply(Actions::SetNum(n), cfg).num == n,
        Actions::apply(Actions::SetNum(n), cfg).wf(),
        Actions::apply(Actions::SetNum(n), cfg) == (GameCfg { num: n, ..cfg }),
{
}

/// `Resume` and `NewGame` are both passed on to the host and both ask it to
/// go to `GameState::Game`; `NewGame` also sets `new_game`, `Resume` changes
/// nothing.
pub proof fn lemma_resume_and_new_game(cfg: GameCfg, p: Platform)
    ensures
        Actions::forwards(Actions::Resume),
        Actions::forwards(Actions::NewGame),
        request_of(Actions::Resume, p) == Some(Request::Goto(GameState::Game)),
        request_of(Actions::NewGame, p) == Some(Request::Goto(GameState::Game)),
        Actions::apply(Actions::Resume, cfg) == cfg,
        Actions::apply(Actions::NewGame, cfg) == (GameCfg { new_game: true, ..cfg }),
{
}

/// `Pause` is passed on to the host, asks it to go to `GameState::Menu`, and
/// leaves the configuration as it was.
pub proof fn lemma_pause(cfg: GameCfg, p: Platform)
    ensures
        Actions::forwards(Actions::Pause),
        request_of(Actions::Pause, p) == Some(Request::Goto(GameState::Menu)),
        Actions::apply(Actions::Pause, cfg) == cfg,
{
}

/// Where the platform can exit, each `Quit` among the events of a tick asks
/// for exit exactly once; on the web, none does.
pub proof fn lemma_quit_exits(es: Seq<Actions>, p: Platform)
    ensures
        count_exits(requests_of(es, p)) == (if p.can_exit() {
            count_quits(es)
        } else {
            0
        }),
    decreases es.len(),
{
    if es.len() > 0 {
        lemma_quit_exits(es.drop_last(), p);
        let rest = requests_of(es.drop_last(), p);
        match request_of(es.last(), p) {
            Some(r) => {
                assert(rest.push(r).drop_last() =~= rest);
            },
            None => {},
        }
    }
}

/// On the web no screen offers `Quit`.
pub proof fn lemma_no_quit_on_web(s: Screens, cfg: GameCfg)
    ensures
        forall|i: int|
            0 <= i < Screens::entries(s, cfg, Platform::Web).len() ==> Screens::entries(
                s,
                cfg,
                Platform::Web,
            )[i].kind != ItemKind::Action(Actions::Quit),
{
}

} // verus!
