//! The spell registry: per-spell cost, cooldown and projectile generation,
//! and the projectiles the spells launch.

use vstd::prelude::*;

use crate::point::{
    spec_add, spec_direction_point, spec_normalize, spec_stepped, Point,
};
use crate::coord::Direction;
use crate::SCALE;

verus! {

/// The spell variants.
#[derive(Clone, Copy, PartialEq, Eq, Structural, Debug)]
pub enum Spell {
    Fireball,
    Sphere,
    Inferno,
}

/// A projectile in flight: a position, a fixed per-tick velocity vector,
/// and the spell it came from (which only decides how it is drawn).
#[derive(Clone, Copy, PartialEq, Eq, Structural, Debug)]
pub struct Projectile {
    pub location: Point,
    pub vector: Point,
    pub speed: u32,
    pub last_tick: u128,
    pub spell: Spell,
}

/// The per-tick velocity of a projectile sent the way `direction` points at
/// `speed` micro-cells per tick.
pub open spec fn spec_projectile_vector(direction: Point, speed: int) -> Point {
    spec_stepped(Point { x: 0, y: 0 }, spec_normalize(direction), speed, 1)
}

/// The projectile launched from `location` toward `direction`.
pub open spec fn spec_projectile(
    location: Point,
    direction: Point,
    speed: int,
    ticker: u128,
    spell: Spell,
) -> Projectile {
    Projectile {
        location,
        vector: spec_projectile_vector(direction, speed),
        speed: speed as u32,
        last_tick: ticker,
        spell,
    }
}

/// Where a projectile stands at `ticker`, moving at its fixed velocity since
/// it was last updated.
pub open spec fn spec_projectile_next(p: Projectile, ticker: u128) -> Point {
    spec_advanced_at(p, if ticker >= p.last_tick {
        ticker - p.last_tick
    } else {
        0
    })
}

pub open spec fn spec_advanced_at(p: Projectile, dt: int) -> Point {
    crate::point::spec_advanced(p.location, p.vector, dt)
}

impl Projectile {
    /// A projectile at `location`, flying the way `direction` points at
    /// `speed` micro-cells per tick.
    pub fn new(location: Point, direction: Point, speed: u32, ticker: u128, spell: Spell) -> (p:
        Projectile)
        requires
            speed as int <= SCALE as int,
        ensures
            p == spec_projectile(location, direction, speed as int, ticker, spell),
            -SCALE <= p.vector.x <= SCALE,
            -SCALE <= p.vector.y <= SCALE,
    {
        let unit = direction.normalize();
        let origin = Point::new(0, 0);
        let vector = origin.stepped(unit, speed, 1);
        proof {
            crate::math::lemma_step_in_range(unit.x as int, speed as int);
            crate::math::lemma_step_in_range(unit.y as int, speed as int);
        }
        Projectile { location, vector, speed, last_tick: ticker, spell }
    }

    /// The position this projectile reaches at `ticker`.
    pub fn next_location(&self, ticker: u128) -> (r: Point)
        ensures
            r == spec_projectile_next(*self, ticker),
    {
        self.location.advanced(self.vector, ticker.saturating_sub(self.last_tick))
    }

    /// Commit a new position, refreshing the tick reference.
    pub fn set_location(&mut self, location: Point, ticker: u128)
        ensures
            *final(self) == (Projectile { location, last_tick: ticker, ..*old(self) }),
    {
        self.location = location;
        self.last_tick = ticker;
    }

    pub fn get_spell(&self) -> (s: Spell)
        ensures
            s == self.spell,
    {
        self.spell
    }
}

/// Ticks left before `last_evoke` plus `cooldown` has passed at `ticker`;
/// zero when the spell has never been cast.
pub open spec fn spec_remaining_cooldown(last_evoke: Option<u128>, cooldown: int, ticker: u128)
    -> int {
    match last_evoke {
        Option::None => 0,
        Option::Some(le) => {
            let due = if le + cooldown > u128::MAX {
                u128::MAX as int
            } else {
                le + cooldown
            };
            if due > ticker {
                due - ticker
            } else {
                0
            }
        },
    }
}

/// The fireball spell: cheap, quick, one fast projectile.
#[derive(Clone, Copy, PartialEq, Eq, Structural, Debug)]
pub struct FireballMagic {
    pub last_evoke: Option<u128>,
}

/// The sphere spell: cheapest and quickest, one slow projectile.
#[derive(Clone, Copy, PartialEq, Eq, Structural, Debug)]
pub struct SphereMagic {
    pub last_evoke: Option<u128>,
}

/// The inferno spell: costly and slow to recharge, a ring of projectiles.
#[derive(Clone, Copy, PartialEq, Eq, Structural, Debug)]
pub struct InfernoMagic {
    pub last_evoke: Option<u128>,
}

impl FireballMagic {
    pub fn new() -> (m: FireballMagic)
        ensures
            m.last_evoke is None,
    {
        FireballMagic { last_evoke: None }
    }
}

impl SphereMagic {
    pub fn new() -> (m: SphereMagic)
        ensures
            m.last_evoke is None,
    {
        SphereMagic { last_evoke: None }
    }
}

impl InfernoMagic {
    pub fn new() -> (m: InfernoMagic)
        ensures
            m.last_evoke is None,
    {
        InfernoMagic { last_evoke: None }
    }
}

/// One spell of any variant, with its cast history.
#[derive(Clone, Copy, PartialEq, Eq, Structural, Debug)]
pub enum Magic {
    Fireball(FireballMagic),
    Sphere(SphereMagic),
    Inferno(InfernoMagic),
}

/// The energy cost of one cast.
pub open spec fn spec_cost(m: Magic) -> int {
    match m {
        Magic::Fireball(_) => 10,
        Magic::Sphere(_) => 5,
        Magic::Inferno(_) => 80,
    }
}

/// The cooldown after one cast, in ticks.
pub open spec fn spec_cooldown(m: Magic) -> int {
    match m {
        Magic::Fireball(_) => 800,
        Magic::Sphere(_) => 400,
        Magic::Inferno(_) => 40_000,
    }
}

/// The tick of the latest cast, if any.
pub open spec fn spec_last_evoke(m: Magic) -> Option<u128> {
    match m {
        Magic::Fireball(f) => f.last_evoke,
        Magic::Sphere(s) => s.last_evoke,
        Magic::Inferno(i) => i.last_evoke,
    }
}

/// `m` with the latest cast recorded at `ticker`.
pub open spec fn spec_evoked(m: Magic, ticker: u128) -> Magic {
    match m {
        Magic::Fireball(_) => Magic::Fireball(FireballMagic { last_evoke: Some(ticker) }),
        Magic::Sphere(_) => Magic::Sphere(SphereMagic { last_evoke: Some(ticker) }),
        Magic::Inferno(_) => Magic::Inferno(InfernoMagic { last_evoke: Some(ticker) }),
    }
}

/// The offset, off the caster's position, at which the `k`-th inferno
/// projectile appears.
pub open spec fn spec_inferno_offset(k: int) -> Point {
    let u = spec_direction_point(Direction::Up);
    let d = spec_direction_point(Direction::Down);
    let l = spec_direction_point(Direction::Left);
    let r = spec_direction_point(Direction::Right);
    if k < 3 {
        spec_add(u, l)
    } else if k < 6 {
        u
    } else if k < 9 {
        spec_add(u, r)
    } else if k < 12 {
        r
    } else if k < 15 {
        spec_add(d, r)
    } else if k < 18 {
        d
    } else if k < 21 {
        spec_add(d, l)
    } else {
        l
    }
}

/// The direction the `k`-th inferno projectile flies in: around each compass
/// and diagonal direction, a cluster of three with slight angular spread.
pub open spec fn spec_inferno_direction(k: int) -> Point {
    let s = SCALE as i64;
    let n = (-(SCALE as int)) as i64;
    let s2 = (2 * SCALE as int) as i64;
    let n2 = (-(2 * SCALE as int)) as i64;
    if k == 0 {
        Point { x: n2, y: n }
    } else if k == 1 {
        Point { x: n, y: n }
    } else if k == 2 || k == 3 {
        Point { x: n, y: n2 }
    } else if k == 4 {
        Point { x: 0, y: n }
    } else if k == 5 || k == 6 {
        Point { x: s, y: n2 }
    } else if k == 7 {
        Point { x: s, y: n }
    } else if k == 8 || k == 9 {
        Point { x: s2, y: n }
    } else if k == 10 {
        Point { x: s, y: 0 }
    } else if k == 11 || k == 12 {
        Point { x: s2, y: s }
    } else if k == 13 {
        Point { x: s, y: s }
    } else if k == 14 || k == 15 {
        Point { x: s, y: s2 }
    } else if k == 16 {
        Point { x: 0, y: s }
    } else if k == 17 || k == 18 {
        Point { x: n, y: s2 }
    } else if k == 19 {
        Point { x: n, y: s }
    } else if k == 20 || k == 21 {
        Point { x: n2, y: s }
    } else if k == 22 {
        Point { x: n, y: 0 }
    } else {
        Point { x: n2, y: n }
    }
}

/// The `k`-th projectile of an inferno cast from `location` at `ticker`.
pub open spec fn spec_inferno_projectile(location: Point, ticker: u128, k: int) -> Projectile {
    spec_projectile(
        spec_add(location, spec_inferno_offset(k)),
        spec_inferno_direction(k),
        FIREBALL_PROJECTILE_SPEED as int,
        ticker,
        Spell::Fireball,
    )
}

/// Micro-cells per tick of a fireball projectile (0.01 cells per tick).
pub const FIREBALL_PROJECTILE_SPEED: u32 = 10_000;

/// Micro-cells per tick of a sphere projectile (0.005 cells per tick).
pub const SPHERE_PROJECTILE_SPEED: u32 = 5_000;

/// The projectiles one cast of `m` launches from `location` toward
/// `direction` at `ticker`.
pub open spec fn spec_evoke_projectiles(
    m: Magic,
    location: Point,
    direction: Point,
    ticker: u128,
) -> Seq<Projectile> {
    match m {
        Magic::Fireball(_) => seq![
            spec_projectile(
                spec_add(location, spec_normalize(direction)),
                direction,
                FIREBALL_PROJECTILE_SPEED as int,
                ticker,
                Spell::Fireball,
            ),
        ],
        Magic::Sphere(_) => seq![
            spec_projectile(
                spec_add(location, spec_normalize(direction)),
                direction,
                SPHERE_PROJECTILE_SPEED as int,
                ticker,
                Spell::Sphere,
            ),
        ],
        Magic::Inferno(_) => Seq::new(24, |k: int| spec_inferno_projectile(location, ticker, k)),
    }
}

/// The exec table behind `spec_inferno_offset` and `spec_inferno_direction`.
fn inferno_entry(k: usize) -> (e: (Point, Point))
    requires
        k < 24,
    ensures
        e.0 == spec_inferno_offset(k as int),
        e.1 == spec_inferno_direction(k as int),
{
    let up = Direction::Up.as_point();
    let down = Direction::Down.as_point();
    let left = Direction::Left.as_point();
    let right = Direction::Right.as_point();
    let offset = if k < 3 {
        up.add(left)
    } else if k < 6 {
        up
    } else if k < 9 {
        up.add(right)
    } else if k < 12 {
        right
    } else if k < 15 {
        down.add(right)
    } else if k < 18 {
        down
    } else if k < 21 {
        down.add(left)
    } else {
        left
    };
    let direction = if k == 0 {
        up.add(left).add(left)
    } else if k == 1 {
        up.add(left)
    } else if k == 2 || k == 3 {
        up.add(up).add(left)
    } else if k == 4 {
        up
    } else if k == 5 || k == 6 {
        up.add(up).add(right)
    } else if k == 7 {
        up.add(right)
    } else if k == 8 || k == 9 {
        up.add(right).add(right)
    } else if k == 10 {
        right
    } else if k == 11 || k == 12 {
        right.add(right).add(down)
    } else if k == 13 {
        down.add(right)
    } else if k == 14 || k == 15 {
        down.add(down).add(right)
    } else if k == 16 {
        down
    } else if k == 17 || k == 18 {
        down.add(down).add(left)
    } else if k == 19 {
        down.add(left)
    } else if k == 20 || k == 21 {
        down.add(left).add(left)
    } else if k == 22 {
        left
    } else {
        left.add(left).add(up)
    };
    (offset, direction)
}

impl Magic {
    /// The energy one cast of this spell costs.
    pub fn cost(&self) -> (c: u32)
        ensures
            c as int == spec_cost(*self),
    {
        match self {
            Magic::Fireball(_) => 10,
            Magic::Sphere(_) => 5,
            Magic::Inferno(_) => 80,
        }
    }

    /// The cooldown one cast of this spell starts, in ticks.
    pub fn cooldown(&self) -> (c: u128)
        ensures
            c as int == spec_cooldown(*self),
    {
        match self {
            Magic::Fireball(_) => 800,
            Magic::Sphere(_) => 400,
            Magic::Inferno(_) => 40_000,
        }
    }

    pub fn get_spell(&self) -> (s: Spell)
        ensures
            s == (match *self {
                Magic::Fireball(_) => Spell::Fireball,
                Magic::Sphere(_) => Spell::Sphere,
                Magic::Inferno(_) => Spell::Inferno,
            }),
    {
        match self {
            Magic::Fireball(_) => Spell::Fireball,
            Magic::Sphere(_) => Spell::Sphere,
            Magic::Inferno(_) => Spell::Inferno,
        }
    }

    /// Ticks left until this spell may be cast again.
    pub fn remaining_cooldown(&self, ticker: u128) -> (r: u128)
        ensures
            r as int == spec_remaining_cooldown(spec_last_evoke(*self), spec_cooldown(*self), ticker),
    {
        let last_evoke = match self {
            Magic::Fireball(f) => f.last_evoke,
            Magic::Sphere(s) => s.last_evoke,
            Magic::Inferno(i) => i.last_evoke,
        };
        if let Some(le) = last_evoke {
            le.saturating_add(self.cooldown()).saturating_sub(ticker)
        } else {
            0
        }
    }

    /// Whether this spell is still cooling down at `ticker`.
    pub fn on_cooldown(&self, ticker: u128) -> (r: bool)
        ensures
            r == (spec_remaining_cooldown(spec_last_evoke(*self), spec_cooldown(*self), ticker)
                > 0),
    {
        self.remaining_cooldown(ticker) > 0
    }

    /// Cast this spell: record the cast time (the cooldown starts now,
    /// whatever the projectiles go on to do) and launch the projectiles.
    /// Cost and cooldown gating are the caller's duty, checked beforehand.
    pub fn evoke(&mut self, location: Point, direction: Point, ticker: u128) -> (r:
        Vec<Projectile>)
        ensures
            *final(self) == spec_evoked(*old(self), ticker),
            r@ == spec_evoke_projectiles(*old(self), location, direction, ticker),
    {
        match self {
            Magic::Fireball(f) => {
                f.last_evoke = Some(ticker);
                let mut v: Vec<Projectile> = Vec::new();
                v.push(
                    Projectile::new(
                        location.add(direction.normalize()),
                        direction,
                        FIREBALL_PROJECTILE_SPEED,
                        ticker,
                        Spell::Fireball,
                    ),
                );
                proof {
                    assert(v@ =~= spec_evoke_projectiles(
                        *old(self),
                        location,
                        direction,
                        ticker,
                    ));
                }
                v
            },
            Magic::Sphere(s) => {
                s.last_evoke = Some(ticker);
                let mut v: Vec<Projectile> = Vec::new();
                v.push(
                    Projectile::new(
                        location.add(direction.normalize()),
                        direction,
                        SPHERE_PROJECTILE_SPEED,
                        ticker,
                        Spell::Sphere,
                    ),
                );
                proof {
                    assert(v@ =~= spec_evoke_projectiles(
                        *old(self),
                        location,
                        direction,
                        ticker,
                    ));
                }
                v
            },
            Magic::Inferno(i) => {
                i.last_evoke = Some(ticker);
                let mut v: Vec<Projectile> = Vec::new();
                let mut k: usize = 0;
                while k < 24
                    invariant
                        k <= 24,
                        v@ =~= Seq::new(
                            k as nat,
                            |j: int| spec_inferno_projectile(location, ticker, j),
                        ),
                    decreases 24 - k,
                {
                    let (offset, dir) = inferno_entry(k);
                    v.push(
                        Projectile::new(
                            location.add(offset),
                            dir,
                            FIREBALL_PROJECTILE_SPEED,
                            ticker,
                            Spell::Fireball,
                        ),
                    );
                    k = k + 1;
                }
                proof {
                    assert(v@ =~= spec_evoke_projectiles(
                        *old(self),
                        location,
                        direction,
                        ticker,
                    ));
                }
                v
            },
        }
    }
}

/// A spell is on cooldown exactly when `ticker` still lies before the
/// latest cast plus the cooldown, and never before its first cast. The one
/// input left out is a cast so late that `last_evoke + cooldown` overflows
/// the tick counter.
pub proof fn lemma_on_cooldown_iff(m: Magic, ticker: u128)
    requires
        spec_last_evoke(m) matches Some(le) ==> le + spec_cooldown(m) <= u128::MAX,
    ensures
        (spec_remaining_cooldown(spec_last_evoke(m), spec_cooldown(m), ticker) > 0) <==> (match spec_last_evoke(
            m,
        ) {
            Option::Some(le) => ticker < le + spec_cooldown(m),
            Option::None => false,
        }),
{
}

/// An inferno cast returns exactly 24 projectiles, and the same ones
/// whatever direction is supplied.
pub proof fn lemma_inferno_burst(m: Magic, location: Point, d1: Point, d2: Point, ticker: u128)
    requires
        m is Inferno,
    ensures
        spec_evoke_projectiles(m, location, d1, ticker).len() == 24,
        spec_evoke_projectiles(m, location, d1, ticker) == spec_evoke_projectiles(
            m,
            location,
            d2,
            ticker,
        ),
{
    assert(spec_evoke_projectiles(m, location, d1, ticker) =~= spec_evoke_projectiles(
        m,
        location,
        d2,
        ticker,
    ));
}

} // verus!
