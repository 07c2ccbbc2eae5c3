//! Decision logic of the concurrently running loops.
//!
//! The threads, locks and channels live outside the library; what is decided
//! under each lock is here, as step functions of the shared state and the
//! event that woke the loop: the control loop's reaction to one key event,
//! and the render loop's poll of the one-shot stop notification with its
//! teardown/confirmation handshake.

use vstd::prelude::*;
use crate::ecs_entities::{EntityRegistry, Utterance};
use crate::ecs_systems::GameTimeNow;
use crate::flock::{spec_passable, tile_is_passable};
use crate::player::Player;
use crate::tile::TileMap;

verus! {

/// How long a freshly spoken utterance lives, in game-time units.
pub const UTTERANCE_LIFESPAN: i64 = 5;

/// The discrete key events the input collaborator yields. `Other` is the
/// terminate signal.
#[derive(Clone, Copy, Debug, PartialEq, Eq, Structural)]
pub enum KeyInput {
    Up,
    Down,
    Left,
    Right,
    Space,
    Other,
}

/// The player position after one gated move request: a step toward an
/// in-bounds, passable tile moves exactly one coordinate by exactly one;
/// any other request leaves the player unchanged.
pub open spec fn spec_step_player(p: Player, map: TileMap, key: KeyInput) -> Player {
    match key {
        KeyInput::Up => if p.y > 0 && spec_passable(
            map.spec_tile_at(p.x as int, p.y - 1).style,
        ) {
            Player { y: (p.y - 1) as usize, ..p }
        } else {
            p
        },
        KeyInput::Right => if p.x < p.limit_x && spec_passable(
            map.spec_tile_at(p.x + 1, p.y as int).style,
        ) {
            Player { x: (p.x + 1) as usize, ..p }
        } else {
            p
        },
        KeyInput::Down => if p.y < p.limit_y && spec_passable(
            map.spec_tile_at(p.x as int, p.y + 1).style,
        ) {
            Player { y: (p.y + 1) as usize, ..p }
        } else {
            p
        },
        KeyInput::Left => if p.x > 0 && spec_passable(
            map.spec_tile_at(p.x - 1, p.y as int).style,
        ) {
            Player { x: (p.x - 1) as usize, ..p }
        } else {
            p
        },
        KeyInput::Space => p,
        KeyInput::Other => p,
    }
}

/// Apply one directional move request, consulting the passability gate
/// before committing; `Space` and `Other` request no move.
pub fn step_player(player: &mut Player, map: &TileMap, key: KeyInput)
    requires
        map.wf(),
        old(player).wf(),
        old(player).limit_x == map.width - 1,
        old(player).limit_y == map.height - 1,
    ensures
        *final(player) == spec_step_player(*old(player), *map, key),
        final(player).wf(),
{
    match key {
        KeyInput::Up => {
            if player.y > 0 {
                if let Some(tile) = map.get_tile(player.x, player.y - 1) {
                    if tile_is_passable(tile) {
                        player.try_north();
                    }
                }
            }
        },
        KeyInput::Right => {
            if player.x < player.limit_x {
                if let Some(tile) = map.get_tile(player.x + 1, player.y) {
                    if tile_is_passable(tile) {
                        player.try_east();
                    }
                }
            }
        },
        KeyInput::Down => {
            if player.y < player.limit_y {
                if let Some(tile) = map.get_tile(player.x, player.y + 1) {
                    if tile_is_passable(tile) {
                        player.try_south();
                    }
                }
            }
        },
        KeyInput::Left => {
            if player.x > 0 {
                if let Some(tile) = map.get_tile(player.x - 1, player.y) {
                    if tile_is_passable(tile) {
                        player.try_west();
                    }
                }
            }
        },
        KeyInput::Space => {},
        KeyInput::Other => {},
    }
}

/// Movement law: a request toward an impassable tile or outside the limits
/// leaves the player exactly as it was (so repeating the rejected request
/// changes nothing either); a granted request changes exactly one
/// coordinate by exactly one, and only ever onto a passable tile.
pub proof fn lemma_player_move(p: Player, map: TileMap, key: KeyInput)
    requires
        map.wf(),
        p.wf(),
        p.limit_x == map.width - 1,
        p.limit_y == map.height - 1,
    ensures
        ({
            let q = spec_step_player(p, map, key);
            &&& q.limit_x == p.limit_x
            &&& q.limit_y == p.limit_y
            &&& q.wf()
            &&& (q == p || (q.y == p.y && (q.x == p.x + 1 || q.x + 1 == p.x)) || (q.x == p.x && (
            q.y == p.y + 1 || q.y + 1 == p.y)))
            &&& q != p ==> spec_passable(map.spec_tile_at(q.x as int, q.y as int).style)
        }),
{
}

/// One full control-loop reaction to a key event, under the locks the
/// caller holds: arrows request a gated move, `Space` speaks a short-lived
/// utterance, `Other` requests termination.
pub fn control_step(
    player: &mut Player,
    registry: &mut EntityRegistry,
    map: &TileMap,
    now: &GameTimeNow,
    key: KeyInput,
) -> (quit: bool)
    requires
        map.wf(),
        old(player).wf(),
        old(player).limit_x == map.width - 1,
        old(player).limit_y == map.height - 1,
        now.0 + UTTERANCE_LIFESPAN <= i64::MAX,
    ensures
        *final(player) == spec_step_player(*old(player), *map, key),
        final(player).wf(),
        quit == (key == KeyInput::Other),
        key == KeyInput::Space ==> final(registry).utterances@.len() == old(registry).utterances@.len() + 1,
        key == KeyInput::Space ==> final(registry).utterances@.drop_last() == old(registry).utterances@,
        key == KeyInput::Space ==> final(registry).utterances@.last().text@ == "Howdy"@,
        key == KeyInput::Space ==> final(registry).utterances@.last().dead_at == now.0 + UTTERANCE_LIFESPAN,
        key != KeyInput::Space ==> final(registry).utterances@ == old(registry).utterances@,
{
    match key {
        KeyInput::Up | KeyInput::Right | KeyInput::Down | KeyInput::Left => {
            step_player(player, map, key);
            false
        },
        KeyInput::Space => {
            let u = Utterance::new("Howdy".to_owned(), now.0, UTTERANCE_LIFESPAN);
            registry.insert(u);
            false
        },
        KeyInput::Other => true,
    }
}

/// What the render loop does on one wake-up.
#[derive(Clone, Copy, Debug, PartialEq, Eq, Structural)]
pub enum RenderAction {
    /// Draw one frame and keep looping.
    DrawFrame,
    /// Exit the loop, restore the terminal, and send the one confirmation.
    TeardownConfirm,
    /// The loop has already exited; nothing is drawn or sent.
    Idle,
}

/// The render loop's control state: it polls the one-shot stop notification
/// once per iteration and, on receipt, tears down exactly once and confirms
/// exactly once.
pub struct RenderLoop {
    pub running: bool,
}

impl RenderLoop {
    /// The loop's next state and action when it wakes and sees (or does not
    /// see) the stop notification.
    pub open spec fn spec_poll(self, stop_requested: bool) -> (RenderLoop, RenderAction) {
        if !self.running {
            (self, RenderAction::Idle)
        } else if stop_requested {
            (RenderLoop { running: false }, RenderAction::TeardownConfirm)
        } else {
            (self, RenderAction::DrawFrame)
        }
    }

    pub fn new() -> (r: RenderLoop)
        ensures
            r.running,
    {
        RenderLoop { running: true }
    }

    /// One iteration's non-blocking poll of the stop notification.
    pub fn poll(&mut self, stop_requested: bool) -> (a: RenderAction)
        ensures
            (*final(self), a) == old(self).spec_poll(stop_requested),
    {
        if !self.running {
            RenderAction::Idle
        } else if stop_requested {
            self.running = false;
            RenderAction::TeardownConfirm
        } else {
            RenderAction::DrawFrame
        }
    }

    /// The state and the number of teardown/confirmation emissions after a
    /// whole series of polls, one per loop iteration.
    pub open spec fn spec_poll_trace(self, stops: Seq<bool>) -> (RenderLoop, nat)
        decreases stops.len(),
    {
        if stops.len() == 0 {
            (self, 0)
        } else {
            let (mid, a) = self.spec_poll(stops[0]);
            let (end, rest) = mid.spec_poll_trace(stops.drop_first());
            (end, rest + if a == RenderAction::TeardownConfirm { 1nat } else { 0nat })
        }
    }
}

/// A stopped render loop stays stopped and never tears down again.
pub proof fn lemma_render_loop_stays_stopped(r: RenderLoop, stops: Seq<bool>)
    requires
        !r.running,
    ensures
        r.spec_poll_trace(stops).0 == r,
        r.spec_poll_trace(stops).1 == 0,
    decreases stops.len(),
{
    if stops.len() > 0 {
        lemma_render_loop_stays_stopped(r, stops.drop_first());
    }
}

/// Shutdown law: once the stop notification is standing, a running render
/// loop's very next poll exits, and over the whole remainder of its life it
/// emits exactly one teardown-and-confirmation: never zero, never more.
pub proof fn lemma_shutdown_once(r: RenderLoop, stops: Seq<bool>)
    requires
        r.running,
        stops.len() > 0,
        forall|i: int| 0 <= i < stops.len() ==> stops[i],
    ensures
        !r.spec_poll_trace(stops).0.running,
        r.spec_poll_trace(stops).1 == 1,
{
    let (mid, a) = r.spec_poll(stops[0]);
    assert(a == RenderAction::TeardownConfirm);
    assert(!mid.running);
    lemma_render_loop_stays_stopped(mid, stops.drop_first());
}

} // verus!
