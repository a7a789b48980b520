//! The player: position, energy, the owned spell loadout and its selection,
//! and the cost/cooldown-gated casting and recharge rules.

use vstd::prelude::*;

use crate::magic::{
    spec_cooldown, spec_cost, spec_evoke_projectiles, spec_evoked, spec_last_evoke,
    spec_remaining_cooldown, FireballMagic, InfernoMagic, Magic, Projectile, SphereMagic,
};
use crate::point::{spec_normalize, spec_stepped, Point};

verus! {

/// Micro-cells the player covers per tick (5 cells per 1000 ticks).
pub const PLAYER_SPEED: u32 = 5_000;

/// The player.
#[derive(Debug)]
pub struct Player {
    pub location: Point,
    pub energy: u32,
    pub max_energy: u32,
    pub spells: Vec<Magic>,
    pub active_spell: usize,
    pub last_tick: u128,
    pub last_action_tick: u128,
    pub energy_recharge_tracker: u128,
}

/// The mathematical image of a player, with the loadout as a sequence.
pub ghost struct PlayerView {
    pub location: Point,
    pub energy: u32,
    pub max_energy: u32,
    pub spells: Seq<Magic>,
    pub active_spell: usize,
    pub last_tick: u128,
    pub last_action_tick: u128,
    pub energy_recharge_tracker: u128,
}

impl View for Player {
    type V = PlayerView;

    open spec fn view(&self) -> PlayerView {
        PlayerView {
            location: self.location,
            energy: self.energy,
            max_energy: self.max_energy,
            spells: self.spells@,
            active_spell: self.active_spell,
            last_tick: self.last_tick,
            last_action_tick: self.last_action_tick,
            energy_recharge_tracker: self.energy_recharge_tracker,
        }
    }
}

impl PlayerView {
    /// The spell slots and the selection index agree, and energy is within
    /// its bound.
    pub open spec fn wf(&self) -> bool {
        &&& (self.active_spell as int) < self.spells.len()
        &&& self.energy <= self.max_energy
    }

    /// The currently selected spell.
    pub open spec fn active(&self) -> Magic {
        self.spells[self.active_spell as int]
    }
}

/// Whether the active spell may be cast at `ticker`: off cooldown, and
/// affordable.
pub open spec fn spec_can_evoke(p: PlayerView, ticker: u128) -> bool {
    &&& spec_remaining_cooldown(spec_last_evoke(p.active()), spec_cooldown(p.active()), ticker)
        == 0
    &&& p.energy >= spec_cost(p.active())
}

/// The player after a cast at `ticker`: the cost is deducted exactly once,
/// the action clock is reset, and the active spell records the cast.
pub open spec fn spec_evoked_player(p: PlayerView, ticker: u128) -> PlayerView {
    PlayerView {
        energy: (p.energy - spec_cost(p.active())) as u32,
        spells: p.spells.update(p.active_spell as int, spec_evoked(p.active(), ticker)),
        last_action_tick: ticker,
        ..p
    }
}

/// Where the player would stand at `ticker` after moving the way `vector`
/// points.
pub open spec fn spec_next_location(p: PlayerView, vector: Point, ticker: u128) -> Point {
    spec_stepped(
        p.location,
        spec_normalize(vector),
        PLAYER_SPEED as int,
        if ticker >= p.last_tick {
            ticker - p.last_tick
        } else {
            0
        },
    )
}

/// The player after committing a movement at `ticker`.
pub open spec fn spec_moved_player(p: PlayerView, location: Point, ticker: u128) -> PlayerView {
    PlayerView { location, last_tick: ticker, last_action_tick: ticker, ..p }
}

/// The recharge accumulator after the elapsed ticks of an idle frame at
/// `ticker` are added (before any conversion into energy).
pub open spec fn spec_charge_tracker(p: PlayerView, ticker: u128) -> int {
    let gained = if ticker >= p.last_tick {
        ticker - p.last_tick
    } else {
        0
    };
    if p.energy_recharge_tracker + gained > u128::MAX {
        u128::MAX as int
    } else {
        p.energy_recharge_tracker + gained
    }
}

/// The player after an idle frame at `ticker`: once the player has been
/// idle for more than 1000 ticks, elapsed time accumulates, and every full
/// 200 accumulated ticks becomes one energy point, up to `max_energy`;
/// reaching the maximum clears the accumulator. The tick reference always
/// advances.
pub open spec fn spec_charged(p: PlayerView, ticker: u128) -> PlayerView {
    let idle = if ticker >= p.last_action_tick {
        ticker - p.last_action_tick
    } else {
        0
    };
    if idle > 1000 {
        let tracker = spec_charge_tracker(p, ticker);
        let stored = tracker / 200;
        if stored >= p.max_energy - p.energy {
            PlayerView { energy: p.max_energy, energy_recharge_tracker: 0, last_tick: ticker, ..p }
        } else {
            PlayerView {
                energy: (p.energy + stored) as u32,
                energy_recharge_tracker: (tracker - stored * 200) as u128,
                last_tick: ticker,
                ..p
            }
        }
    } else {
        PlayerView { last_tick: ticker, ..p }
    }
}

/// The player after moving the spell selection one slot forward or backward,
/// wrapping around the loadout.
pub open spec fn spec_cycled(p: PlayerView, forward: bool) -> PlayerView {
    PlayerView {
        active_spell: (if forward {
            if p.active_spell + 1 == p.spells.len() {
                0
            } else {
                p.active_spell + 1
            }
        } else {
            if p.active_spell == 0 {
                p.spells.len() - 1
            } else {
                p.active_spell - 1
            }
        }) as usize,
        ..p
    }
}

/// The player after selecting a spell slot directly; an index outside the
/// loadout changes nothing.
pub open spec fn spec_selected(p: PlayerView, index: usize) -> PlayerView {
    PlayerView {
        active_spell: if (index as int) < p.spells.len() {
            index
        } else {
            p.active_spell
        },
        ..p
    }
}

impl Player {
    /// A fresh player at `location`: full energy, the standard loadout, and
    /// the sphere selected.
    pub fn new(location: Point, ticker: u128) -> (p: Player)
        ensures
            p@.wf(),
            p@.location == location,
            p@.energy == 100u32 && p@.max_energy == 100u32,
            p@.spells =~= seq![
                Magic::Fireball(FireballMagic { last_evoke: None }),
                Magic::Sphere(SphereMagic { last_evoke: None }),
                Magic::Inferno(InfernoMagic { last_evoke: None }),
                Magic::Inferno(InfernoMagic { last_evoke: None }),
            ],
            p@.active_spell == 1usize,
            p@.last_tick == ticker && p@.last_action_tick == ticker,
            p@.energy_recharge_tracker == 0u128,
    {
        let mut spells: Vec<Magic> = Vec::new();
        spells.push(Magic::Fireball(FireballMagic::new()));
        spells.push(Magic::Sphere(SphereMagic::new()));
        spells.push(Magic::Inferno(InfernoMagic::new()));
        spells.push(Magic::Inferno(InfernoMagic::new()));
        Player {
            location,
            energy: 100,
            max_energy: 100,
            spells,
            active_spell: 1,
            last_tick: ticker,
            last_action_tick: ticker,
            energy_recharge_tracker: 0,
        }
    }

    /// The currently selected spell.
    pub fn get_active_spell(&self) -> (m: &Magic)
        requires
            self@.wf(),
        ensures
            *m == self@.active(),
    {
        &self.spells[self.active_spell]
    }

    /// Whether the active spell may be cast at `ticker`.
    pub fn active_spell_can_evoke(&self, ticker: u128) -> (r: bool)
        requires
            self@.wf(),
        ensures
            r == spec_can_evoke(self@, ticker),
    {
        !self.spells[self.active_spell].on_cooldown(ticker) && self.energy
            >= self.spells[self.active_spell].cost()
    }

    /// Cast the active spell toward `direction`: deduct its cost, reset the
    /// action clock, and launch its projectiles. The caller must have
    /// checked `active_spell_can_evoke` first.
    pub fn active_spell_evoke(&mut self, direction: Point, ticker: u128) -> (r: Vec<Projectile>)
        requires
            old(self)@.wf(),
            spec_can_evoke(old(self)@, ticker),
        ensures
            final(self)@.wf(),
            final(self)@ == spec_evoked_player(old(self)@, ticker),
            r@ == spec_evoke_projectiles(
                old(self)@.active(),
                old(self)@.location,
                direction,
                ticker,
            ),
    {
        let cost = self.spells[self.active_spell].cost();
        self.energy = self.energy - cost;
        self.last_action_tick = ticker;
        let location = self.location;
        let spell = &mut self.spells[self.active_spell];
        let r = spell.evoke(location, direction, ticker);
        proof {
            assert(self.spells@ =~= old(self)@.spells.update(
                old(self)@.active_spell as int,
                spec_evoked(old(self)@.active(), ticker),
            ));
            assert(final(self)@ =~= spec_evoked_player(old(self)@, ticker));
        }
        r
    }

    /// Where the player would stand at `ticker` after moving the way
    /// `vector` points. Pure: nothing is committed.
    pub fn next_location(&self, vector: Point, ticker: u128) -> (r: Point)
        ensures
            r == spec_next_location(self@, vector, ticker),
    {
        let unit = vector.normalize();
        self.location.stepped(unit, PLAYER_SPEED, ticker.saturating_sub(self.last_tick))
    }

    /// Commit a movement, refreshing both clocks.
    pub fn set_location(&mut self, location: Point, ticker: u128)
        ensures
            final(self)@ == spec_moved_player(old(self)@, location, ticker),
    {
        self.location = location;
        self.last_tick = ticker;
        self.last_action_tick = ticker;
    }

    /// Refresh the tick reference without moving, for a frame whose
    /// attempted move was rejected.
    pub fn set_ticker(&mut self, ticker: u128)
        ensures
            final(self)@ == (PlayerView { last_tick: ticker, ..old(self)@ }),
    {
        self.last_tick = ticker;
    }

    /// An idle frame: recharge energy as `spec_charged` says, and always
    /// refresh the tick reference.
    pub fn charge_energy(&mut self, ticker: u128)
        requires
            old(self)@.wf(),
        ensures
            final(self)@.wf(),
            final(self)@ == spec_charged(old(self)@, ticker),
    {
        if ticker.saturating_sub(self.last_action_tick) > 1000 {
            let gained = ticker.saturating_sub(self.last_tick);
            let tracker = self.energy_recharge_tracker.saturating_add(gained);
            let stored = tracker / 200;
            let headroom = self.max_energy - self.energy;
            if stored >= headroom as u128 {
                self.energy = self.max_energy;
                self.energy_recharge_tracker = 0;
            } else {
                self.energy = self.energy + (stored as u32);
                self.energy_recharge_tracker = tracker - stored * 200;
            }
        }
        self.last_tick = ticker;
    }

    /// Move the spell selection one slot forward or backward, wrapping
    /// around the loadout.
    pub fn cycle_spell(&mut self, forward: bool)
        requires
            old(self)@.wf(),
        ensures
            final(self)@.wf(),
            final(self)@ == spec_cycled(old(self)@, forward),
    {
        let len = self.spells.len();
        if forward {
            self.active_spell = if self.active_spell + 1 == len {
                0
            } else {
                self.active_spell + 1
            };
        } else {
            self.active_spell = if self.active_spell == 0 {
                len - 1
            } else {
                self.active_spell - 1
            };
        }
    }

    /// Select a spell slot directly; an index outside the loadout is a
    /// no-op.
    pub fn select_spell(&mut self, index: usize)
        ensures
            final(self)@ == spec_selected(old(self)@, index),
    {
        if index < self.spells.len() {
            self.active_spell = index;
        }
    }
}

/// Energy never exceeds `max_energy` nor drops below zero: every cast is
/// gated by `active_spell_can_evoke` and deducts exactly its cost from a
/// sufficient balance, and every recharge clamps at the maximum, so each
/// step of any such sequence preserves the bound.
pub proof fn lemma_energy_bounds(p: PlayerView, ticker: u128)
    requires
        p.wf(),
    ensures
        spec_can_evoke(p, ticker) ==> spec_evoked_player(p, ticker).wf() && 0 <= spec_evoked_player(
            p,
            ticker,
        ).energy <= p.energy,
        spec_charged(p, ticker).wf() && spec_charged(p, ticker).energy <= p.max_energy,
{
}

/// Committing a movement and at once recomputing the next location with the
/// zero vector returns the committed position unchanged: idling does not
/// drift.
pub proof fn lemma_idle_round_trip(p: PlayerView, location: Point, ticker: u128, later: u128)
    ensures
        spec_next_location(spec_moved_player(p, location, ticker), Point { x: 0, y: 0 }, later)
            == location,
{
    let zero = Point { x: 0, y: 0 };
    assert(spec_normalize(zero) == zero);
    let q = spec_moved_player(p, location, ticker);
    let dt = if later >= q.last_tick {
        later - q.last_tick
    } else {
        0
    };
    assert(0 * (PLAYER_SPEED as int) * (dt as int) == 0) by (nonlinear_arith);
    assert(crate::math::spec_step(0, PLAYER_SPEED as int, dt as int) == 0);
}

} // verus!
