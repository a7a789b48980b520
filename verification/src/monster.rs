//! Monsters and their pursuit AI: a per-call pseudo-random draw, seeded
//! deterministically from the ticker window and the monster's id, picks a
//! pursuit or wander step.

use vstd::prelude::*;

use crate::coord::Direction;
use crate::math::lemma_step_bound;
use crate::point::{spec_direction_point, spec_normalize, spec_stepped, spec_sub, Point};
use crate::SCALE;

verus! {

/// What one draw from rand's `StdRng` yields for a given seed. In the rand
/// 0.8 series `StdRng` is a ChaCha cipher generator, and `seed_from_u64` is
/// a pure expansion of the 64-bit seed, so the first draw is a function of
/// the seed alone, the same in every process and on every machine.
pub uninterp spec fn std_rng_draw(seed: u64) -> u64;

/// Relies on rand::rngs::StdRng::seed_from_u64 and rand::RngCore::next_u64:
/// seeding is a deterministic expansion of the seed, and the first draw of
/// the seeded generator depends on the seed alone.
#[verifier::external_body]
fn rng_draw(seed: u64) -> (r: u64)
    ensures
        r == std_rng_draw(seed),
{
    let mut rng = <rand::rngs::StdRng as rand::SeedableRng>::seed_from_u64(seed);
    rand::RngCore::next_u64(&mut rng)
}

/// Relies on rand::random: it returns some unsigned 64-bit value; nothing is
/// promised of which, and monster behavior is verified for every id.
#[verifier::external_body]
fn random_u64() -> u64 {
    rand::random::<u64>()
}

/// Default pursuit-randomness denominator: every draw lands in the behavior
/// table.
pub const DEFAULT_MONSTER_LOGIC: usize = 100;

/// Default monster speed, in micro-cells per tick (2 cells per 1000 ticks).
pub const DEFAULT_MONSTER_SPEED: u32 = 2_000;

/// A monster: a position, a speed, a stable id seeding its per-call
/// randomness, and a `logic` denominator. Draws are reduced modulo `logic`,
/// so a `logic` above 100 leaves a chance of standing still, while a small
/// one makes pursuit near-certain.
#[derive(Clone, Copy, PartialEq, Eq, Structural, Debug)]
pub struct Monster {
    pub location: Point,
    pub logic: usize,
    pub id: u64,
    pub speed: u32,
    pub last_tick: u128,
}

/// The seed of the draw a monster makes at `ticker`: one seed per 2000-tick
/// window and id, so behavior is reproducible within a window.
pub open spec fn spec_seek_seed(m: Monster, ticker: u128) -> u64 {
    (if (ticker as u64) + m.id > u64::MAX {
        ((ticker as u64) + m.id - 0x1_0000_0000_0000_0000) as u64
    } else {
        ((ticker as u64) + m.id) as u64
    }) / 2000
}

/// The step a monster picks at `ticker` toward `target`, before scaling:
/// the draw modulo `logic` dispatches over the behavior table, and a result
/// of 100 or above (only reachable when `logic` exceeds 100) picks none.
pub open spec fn spec_seek_choice(m: Monster, target: Point, ticker: u128) -> Option<Point> {
    let sel = std_rng_draw(spec_seek_seed(m, ticker)) as int % (m.logic as int);
    if sel <= 39 {
        Some(spec_sub(target, m.location))
    } else if sel <= 59 {
        Some(Point { x: spec_sub(target, m.location).x, y: 0 })
    } else if sel <= 79 {
        Some(Point { x: 0, y: spec_sub(target, m.location).y })
    } else if sel <= 84 {
        Some(spec_direction_point(Direction::Right))
    } else if sel <= 89 {
        Some(spec_direction_point(Direction::Left))
    } else if sel <= 94 {
        Some(spec_direction_point(Direction::Up))
    } else if sel <= 99 {
        Some(spec_direction_point(Direction::Down))
    } else {
        None
    }
}

/// Where a monster asks to move at `ticker`: its chosen step, normalized and
/// scaled by its speed and the elapsed ticks; `None` when it stands still.
pub open spec fn spec_seek(m: Monster, target: Point, ticker: u128) -> Option<Point> {
    match spec_seek_choice(m, target, ticker) {
        Option::None => None,
        Option::Some(step) => Some(
            spec_stepped(
                m.location,
                spec_normalize(step),
                m.speed as int,
                if ticker >= m.last_tick {
                    ticker - m.last_tick
                } else {
                    0
                },
            ),
        ),
    }
}

impl Monster {
    /// The randomness denominator is a divisor, and the speed fits the
    /// scaled arithmetic.
    pub open spec fn wf(&self) -> bool {
        &&& 1 <= self.logic
        &&& self.speed <= SCALE as u32
    }

    /// A monster at `location` with the default logic and speed.
    pub fn new_simple(location: Point, ticker: u128) -> (m: Monster)
        ensures
            m.wf(),
            m.location == location,
            m.logic == DEFAULT_MONSTER_LOGIC,
            m.speed == DEFAULT_MONSTER_SPEED,
            m.last_tick == ticker,
    {
        Self::new(location, ticker, None, None)
    }

    /// A monster at `location`. `logic` defaults to 100 and must be at
    /// least 1; `speed` is in micro-cells per tick, defaults to 2000, and
    /// must not exceed one cell per tick. The id is drawn at random.
    pub fn new(location: Point, ticker: u128, logic: Option<usize>, speed: Option<u32>) -> (m:
        Monster)
        requires
            logic matches Some(l) ==> 1 <= l,
            speed matches Some(s) ==> s <= SCALE as u32,
        ensures
            m.wf(),
            m.location == location,
            m.logic == (match logic {
                Some(l) => l,
                None => DEFAULT_MONSTER_LOGIC,
            }),
            m.speed == (match speed {
                Some(s) => s,
                None => DEFAULT_MONSTER_SPEED,
            }),
            m.last_tick == ticker,
    {
        let id = random_u64();
        Monster {
            location,
            logic: match logic {
                Some(l) => l,
                None => DEFAULT_MONSTER_LOGIC,
            },
            speed: match speed {
                Some(s) => s,
                None => DEFAULT_MONSTER_SPEED,
            },
            id,
            last_tick: ticker,
        }
    }

    /// Refresh the tick reference without moving.
    pub fn set_ticker(&mut self, ticker: u128)
        ensures
            *final(self) == (Monster { last_tick: ticker, ..*old(self) }),
    {
        self.last_tick = ticker;
    }

    /// Commit a position, refreshing the tick reference.
    pub fn set_location(&mut self, location: Point, ticker: u128)
        ensures
            *final(self) == (Monster { location, last_tick: ticker, ..*old(self) }),
    {
        self.location = location;
        self.last_tick = ticker;
    }

    /// Pick this call's pursuit or wander step toward `target`, or `None`
    /// to stand still. The candidate position never leaves the box of
    /// `speed * elapsed` micro-cells around the current position, on either
    /// axis.
    pub fn seek(&self, target: Point, ticker: u128) -> (r: Option<Point>)
        requires
            self.wf(),
        ensures
            r == spec_seek(*self, target, ticker),
            r matches Some(p) ==> {
                let dt = if ticker >= self.last_tick {
                    (ticker - self.last_tick) as int
                } else {
                    0
                };
                &&& p.x - self.location.x <= self.speed * dt
                &&& self.location.x - p.x <= self.speed * dt
                &&& p.y - self.location.y <= self.speed * dt
                &&& self.location.y - p.y <= self.speed * dt
            },
    {
        let seed = (ticker as u64).wrapping_add(self.id) / 2000;
        let sel = rng_draw(seed) % (self.logic as u64);
        let step: Option<Point> = if sel <= 39 {
            Some(target.sub(self.location))
        } else if sel <= 59 {
            Some(Point::new(target.sub(self.location).x, 0))
        } else if sel <= 79 {
            Some(Point::new(0, target.sub(self.location).y))
        } else if sel <= 84 {
            Some(Direction::Right.as_point())
        } else if sel <= 89 {
            Some(Direction::Left.as_point())
        } else if sel <= 94 {
            Some(Direction::Up.as_point())
        } else {
            if sel <= 99 {
                Some(Direction::Down.as_point())
            } else {
                None
            }
        };
        match step {
            None => None,
            Some(step) => {
                let unit = step.normalize();
                let dt = ticker.saturating_sub(self.last_tick);
                let next = self.location.stepped(unit, self.speed, dt);
                proof {
                    lemma_step_bound(unit.x as int, self.speed as int, dt as int);
                    lemma_step_bound(unit.y as int, self.speed as int, dt as int);
                }
                Some(next)
            },
        }
    }

    /// This monster's speed, in micro-cells per tick.
    pub fn speed(&self) -> (s: u32)
        ensures
            s == self.speed,
    {
        self.speed
    }

    /// This monster's position.
    pub fn location(&self) -> (p: Point)
        ensures
            p == self.location,
    {
        self.location
    }
}

} // verus!
