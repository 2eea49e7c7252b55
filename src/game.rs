//! The game's phases, the player entity and the systems that the phase gates.
use vstd::prelude::*;
use crate::animation::{
    FixedClock, FRAME_COUNT, next_frame, next_frame_spec, frame_after_ticks,
    lemma_frame_after_ticks,
};
use crate::motion::{KeyState, Position, Coord, intent_of, sample_intent, settled};

verus! {

/// The phase of the game. It starts in `Loading`, moves to `Menu` once the
/// assets are ready; `InGame` has no trigger yet.
#[derive(Clone, Copy, Debug, PartialEq, Eq, Structural)]
pub enum Phase {
    Loading,
    Menu,
    InGame,
}

/// What the controller does when a phase is entered.
#[derive(Clone, Copy, Debug, PartialEq, Eq, Structural)]
pub enum Effect {
    SpawnPlayer,
}

/// The transition-effect table: entering `Menu` from `Loading` spawns the
/// player; no other transition has an effect.
pub open spec fn effect_spec(from: Phase, to: Phase) -> Option<Effect> {
    if from is Loading && to is Menu {
        Some(Effect::SpawnPlayer)
    } else {
        None
    }
}

/// Looks up the effect of moving from `from` to `to`.
pub fn transition_effect(from: Phase, to: Phase) -> (r: Option<Effect>)
    ensures
        r == effect_spec(from, to),
{
    match (from, to) {
        (Phase::Loading, Phase::Menu) => Some(Effect::SpawnPlayer),
        _ => None,
    }
}

/// The phase that follows `phase` once the assets are ready.
pub open spec fn after_assets_ready(phase: Phase) -> Phase {
    if phase is Loading {
        Phase::Menu
    } else {
        phase
    }
}

/// The single player entity.
#[derive(Clone, Copy, Debug, PartialEq, Eq)]
pub struct Player {
    pub position: Position,
    /// The sprite-sheet cell shown.
    pub frame_index: u32,
}

impl Player {
    pub open spec fn wf(&self) -> bool {
        self.frame_index < FRAME_COUNT
    }
}

/// The player as spawned: at `(0, 150)`, on the first cell of the sheet.
pub open spec fn spawned_player() -> Player {
    Player {
        position: Position { x: Coord { whole: 0, surd: 0 }, y: Coord { whole: 150, surd: 0 } },
        frame_index: 0,
    }
}

/// Creates the player entity.
pub fn spawn_player() -> (r: Player)
    ensures
        r == spawned_player(),
        r.wf(),
{
    Player { position: Position::at(0, 150), frame_index: 0 }
}

/// `after` is `before` after one pass of the movement integrator under `keys`.
pub open spec fn moved_player(before: Player, after: Player, keys: KeyState) -> bool {
    &&& after.frame_index == before.frame_index
    &&& after.position@ == settled(before.position@, intent_of(keys))
}

/// Everything the systems read and change: the phase, the player if one
/// exists, and the animation clock.
pub struct GameContext {
    pub phase: Phase,
    pub player: Option<Player>,
    pub clock: FixedClock,
}

impl GameContext {
    /// No player exists while loading, exactly one in the menu, and the clock
    /// and the frame index stay in range.
    pub open spec fn wf(&self) -> bool {
        &&& self.clock.wf()
        &&& self.phase is Loading ==> self.player is None
        &&& self.phase is Menu ==> self.player is Some
        &&& self.player matches Some(p) ==> p.wf()
    }

    /// A game that is loading its assets.
    pub fn new() -> (r: GameContext)
        ensures
            r.wf(),
            r.phase == Phase::Loading,
            r.player is None,
            r.clock.carried_micros == 0,
    {
        GameContext { phase: Phase::Loading, player: None, clock: FixedClock::new() }
    }

    /// Handles the "assets ready" event: moves from `Loading` to `Menu` and
    /// runs the effect of that transition, which spawns the player. In any
    /// other phase the event changes nothing. Returns whether the phase changed.
    pub fn assets_loaded(&mut self) -> (changed: bool)
        requires
            old(self).wf(),
        ensures
            final(self).wf(),
            changed == old(self).phase is Loading,
            final(self).phase == after_assets_ready(old(self).phase),
            final(self).clock == old(self).clock,
            changed ==> final(self).player == Some(spawned_player()),
            !changed ==> final(self).player == old(self).player,
    {
        let from = self.phase;
        let to = match from {
            Phase::Loading => Phase::Menu,
            other => other,
        };
        if from == to {
            return false;
        }
        match transition_effect(from, to) {
            Some(Effect::SpawnPlayer) => {
                self.player = Some(spawn_player());
            },
            None => {},
        }
        self.phase = to;
        true
    }

    /// The movement integrator: while in `Menu`, moves the player by `SPEED`
    /// along the normalized intent of `keys`, or not at all when no direction
    /// is held. Outside `Menu` it does nothing.
    pub fn move_player(&mut self, keys: KeyState)
        requires
            old(self).wf(),
        ensures
            final(self).wf(),
            final(self).phase == old(self).phase,
            final(self).clock == old(self).clock,
            old(self).phase is Menu ==> final(self).player is Some && moved_player(
                old(self).player->0,
                final(self).player->0,
                keys,
            ),
            !(old(self).phase is Menu) ==> final(self).player == old(self).player,
    {
        if self.phase != Phase::Menu {
            return;
        }
        match &mut self.player {
            Some(p) => {
                let intent = sample_intent(keys);
                p.position.integrate(intent);
            },
            None => {},
        }
    }

    /// The animation ticker: while in `Menu`, shows the next cell of the
    /// sprite sheet. Outside `Menu` it does nothing.
    pub fn animate_player(&mut self)
        requires
            old(self).wf(),
        ensures
            final(self).wf(),
            final(self).phase == old(self).phase,
            final(self).clock == old(self).clock,
            old(self).phase is Menu ==> {
                &&& final(self).player is Some
                &&& final(self).player->0.position == old(self).player->0.position
                &&& final(self).player->0.frame_index == next_frame_spec(
                    old(self).player->0.frame_index as int,
                )
            },
            !(old(self).phase is Menu) ==> final(self).player == old(self).player,
    {
        if self.phase != Phase::Menu {
            return;
        }
        match &mut self.player {
            Some(p) => {
                p.frame_index = next_frame(p.frame_index);
            },
            None => {},
        }
    }

    /// One engine update that took `elapsed` microseconds: the clock collects
    /// the time in every phase; while in `Menu` the movement integrator runs
    /// once and the animation ticker once per tick that fell due. Returns the
    /// number of ticks.
    pub fn update(&mut self, keys: KeyState, elapsed: u64) -> (ticks: u64)
        requires
            old(self).wf(),
        ensures
            final(self).wf(),
            final(self).phase == old(self).phase,
            ticks == old(self).clock.ticks_for(elapsed as int),
            final(self).clock.carried_micros == (old(self).clock.carried_micros + elapsed) % (
            crate::animation::TICK_PERIOD_MICROS as int),
            old(self).phase is Menu ==> {
                &&& final(self).player is Some
                &&& final(self).player->0.position@ == settled(
                    old(self).player->0.position@,
                    intent_of(keys),
                )
                &&& final(self).player->0.frame_index == (old(self).player->0.frame_index + ticks)
                    % (FRAME_COUNT as int)
            },
            !(old(self).phase is Menu) ==> final(self).player == old(self).player,
    {
        let ticks = self.clock.advance(elapsed);
        self.move_player(keys);
        let ghost moved = self.player;
        let mut k: u64 = 0;
        while k < ticks
            invariant
                self.wf(),
                k <= ticks,
                self.phase == old(self).phase,
                self.clock.carried_micros == (old(self).clock.carried_micros + elapsed) % (
                crate::animation::TICK_PERIOD_MICROS as int),
                !(self.phase is Menu) ==> self.player == old(self).player,
                self.phase is Menu ==> {
                    &&& self.player is Some
                    &&& moved is Some
                    &&& self.player->0.position == moved->0.position
                    &&& self.player->0.frame_index == frame_after_ticks(
                        moved->0.frame_index as int,
                        k as nat,
                    )
                    &&& moved_player(old(self).player->0, moved->0, keys)
                },
            decreases ticks - k,
        {
            self.animate_player();
            k = k + 1;
        }
        proof {
            if self.phase is Menu {
                lemma_frame_after_ticks(moved->0.frame_index as int, ticks as nat);
            }
        }
        ticks
    }
}

} // verus!
