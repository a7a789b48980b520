//! The simulation engine: one frame advances projectiles, decodes and
//! applies the player's commands, moves the monsters, spawns replacements,
//! and reports whether the session goes on, is won, or is lost.

use vstd::prelude::*;

use crate::command::{spec_state_command, AsCommand, Command};
use crate::coord::Coord;
use crate::input::InputState;
use crate::magic::{spec_evoke_projectiles, spec_projectile_next, Projectile};
use crate::monster::{spec_seek, Monster};
use crate::player::{
    spec_can_evoke, spec_charged, spec_cycled, spec_evoked_player, spec_moved_player,
    spec_next_location, spec_selected, Player, PlayerView,
};
use crate::point::{
    spec_add, spec_direction_point, spec_dist_sq, spec_from_coord, spec_sub, Point,
};
use crate::render::{RenderAction, UnitTag};

verus! {

/// The one proximity threshold: two entities closer than one cell collide.
pub const PROXIMITY: i64 = 1_000_000;

/// Whole game state owned by the engine.
pub struct State {
    pub score: i32,
    pub ticker: u128,
    pub monsters: Vec<Monster>,
    pub player: Player,
    pub objects: Vec<Projectile>,
    pub bounds: Point,
    pub last_spawn_tick: u128,
}

/// The mathematical image of the game state.
pub ghost struct StateView {
    pub score: i32,
    pub ticker: u128,
    pub monsters: Seq<Monster>,
    pub player: PlayerView,
    pub objects: Seq<Projectile>,
    pub bounds: Point,
    pub last_spawn_tick: u128,
}

impl View for State {
    type V = StateView;

    open spec fn view(&self) -> StateView {
        StateView {
            score: self.score,
            ticker: self.ticker,
            monsters: self.monsters@,
            player: self.player@,
            objects: self.objects@,
            bounds: self.bounds,
            last_spawn_tick: self.last_spawn_tick,
        }
    }
}

impl StateView {
    /// The player and every monster are well-formed.
    pub open spec fn wf(&self) -> bool {
        &&& self.player.wf()
        &&& forall|i: int| 0 <= i < self.monsters.len() ==> #[trigger] self.monsters[i].wf()
    }
}

/// Whether `p` lies strictly inside the arena: the border cells are walls.
pub open spec fn spec_in_bounds(p: Point, bounds: Point) -> bool {
    0 < p.x < bounds.x && 0 < p.y < bounds.y
}

fn in_bounds(p: Point, bounds: Point) -> (r: bool)
    ensures
        r == spec_in_bounds(p, bounds),
{
    0 < p.x && p.x < bounds.x && 0 < p.y && p.y < bounds.y
}

/// Whether two positions collide: strictly closer than the proximity
/// threshold.
pub open spec fn spec_within(a: Point, b: Point) -> bool {
    spec_dist_sq(a, b) < (PROXIMITY as int) * (PROXIMITY as int)
}

fn within(a: Point, b: Point) -> (r: bool)
    ensures
        r == spec_within(a, b),
{
    a.within(b, PROXIMITY)
}

/// The index of the first monster, from `i` on, whose position collides
/// with `p`.
pub open spec fn spec_first_hit_from(monsters: Seq<Monster>, p: Point, i: int) -> Option<int>
    decreases monsters.len() - i,
{
    if i < 0 || i >= monsters.len() {
        None
    } else if spec_within(monsters[i].location, p) {
        Some(i)
    } else {
        spec_first_hit_from(monsters, p, i + 1)
    }
}

fn find_hit(monsters: &Vec<Monster>, p: Point) -> (r: Option<usize>)
    ensures
        (match r {
            Some(j) => spec_first_hit_from(monsters@, p, 0) == Some(j as int),
            None => spec_first_hit_from(monsters@, p, 0) is None,
        }),
        r matches Some(j) ==> j < monsters@.len(),
{
    let mut i: usize = 0;
    while i < monsters.len()
        invariant
            i <= monsters@.len(),
            spec_first_hit_from(monsters@, p, 0) == spec_first_hit_from(monsters@, p, i as int),
        decreases monsters@.len() - i,
    {
        if within(monsters[i].location, p) {
            return Some(i);
        }
        i = i + 1;
    }
    None
}

/// Accumulator of the projectile pass: the projectiles kept so far, the
/// monsters still alive, the score, and the render events emitted.
pub ghost struct ObjectsPass {
    pub objects: Seq<Projectile>,
    pub monsters: Seq<Monster>,
    pub score: i32,
    pub events: Seq<RenderAction>,
}

/// One projectile processed: gone if it leaves the arena; on a hit, both
/// the projectile and the first colliding monster go and the score rises;
/// otherwise the new position is committed, with a move event if it
/// changed.
pub open spec fn spec_object_step(
    acc: ObjectsPass,
    o: Projectile,
    ticker: u128,
    bounds: Point,
) -> ObjectsPass {
    let next = spec_projectile_next(o, ticker);
    if !spec_in_bounds(next, bounds) {
        ObjectsPass {
            events: acc.events.push(
                RenderAction::Remove {
                    unit: UnitTag::Projectile { spell: o.spell },
                    coord: o.location,
                },
            ),
            ..acc
        }
    } else {
        match spec_first_hit_from(acc.monsters, next, 0) {
            Option::Some(j) => ObjectsPass {
                monsters: acc.monsters.remove(j),
                score: if acc.score < i32::MAX {
                    (acc.score + 1) as i32
                } else {
                    acc.score
                },
                events: acc.events.push(
                    RenderAction::Remove {
                        unit: UnitTag::Monster { id: acc.monsters[j].id },
                        coord: acc.monsters[j].location,
                    },
                ).push(
                    RenderAction::Remove {
                        unit: UnitTag::Projectile { spell: o.spell },
                        coord: o.location,
                    },
                ),
                ..acc
            },
            Option::None => ObjectsPass {
                objects: acc.objects.push(
                    Projectile { location: next, last_tick: ticker, ..o },
                ),
                events: if next != o.location {
                    acc.events.push(
                        RenderAction::Move {
                            unit: UnitTag::Projectile { spell: o.spell },
                            old: o.location,
                            new: next,
                        },
                    )
                } else {
                    acc.events
                },
                ..acc
            },
        }
    }
}

/// The projectile pass folded over `objs`, in order.
pub open spec fn spec_objects_pass(
    objs: Seq<Projectile>,
    acc: ObjectsPass,
    ticker: u128,
    bounds: Point,
) -> ObjectsPass
    decreases objs.len(),
{
    if objs.len() == 0 {
        acc
    } else {
        spec_objects_pass(objs.skip(1), spec_object_step(acc, objs[0], ticker, bounds), ticker, bounds)
    }
}

impl State {
    /// Advance every projectile to `ticker`: out-of-bounds ones are
    /// destroyed, hits destroy monster and projectile and score, the rest
    /// commit their motion.
    fn advance_objects(&mut self, ticker: u128, events: &mut Vec<RenderAction>)
        requires
            forall|k: int|
                0 <= k < old(self).monsters@.len() ==> #[trigger] old(self).monsters@[k].wf(),
        ensures
            forall|k: int|
                0 <= k < final(self).monsters@.len() ==> #[trigger] final(self).monsters@[k].wf(),
            ({
                let r = spec_objects_pass(
                    old(self).objects@,
                    ObjectsPass {
                        objects: seq![],
                        monsters: old(self).monsters@,
                        score: old(self).score,
                        events: old(events)@,
                    },
                    ticker,
                    old(self).bounds,
                );
                &&& final(self).objects@ == r.objects
                &&& final(self).monsters@ == r.monsters
                &&& final(self).score == r.score
                &&& final(events)@ == r.events
            }),
            final(self).ticker == old(self).ticker,
            final(self).player == old(self).player,
            final(self).bounds == old(self).bounds,
            final(self).last_spawn_tick == old(self).last_spawn_tick,
    {
        let ghost acc0 = ObjectsPass {
            objects: seq![],
            monsters: old(self).monsters@,
            score: old(self).score,
            events: old(events)@,
        };
        let mut kept: Vec<Projectile> = Vec::new();
        let mut i: usize = 0;
        let n = self.objects.len();
        proof {
            assert(old(self).objects@.skip(0) =~= old(self).objects@);
            assert(kept@ =~= Seq::<Projectile>::empty());
        }
        while i < n
            invariant
                i <= n,
                n == old(self).objects@.len(),
                self.objects@ == old(self).objects@,
                forall|k: int| 0 <= k < self.monsters@.len() ==> #[trigger] self.monsters@[k].wf(),
                self.ticker == old(self).ticker,
                self.player == old(self).player,
                self.bounds == old(self).bounds,
                self.last_spawn_tick == old(self).last_spawn_tick,
                ({
                    let now = ObjectsPass {
                        objects: kept@,
                        monsters: self.monsters@,
                        score: self.score,
                        events: events@,
                    };
                    spec_objects_pass(old(self).objects@, acc0, ticker, old(self).bounds)
                        == spec_objects_pass(
                        old(self).objects@.skip(i as int),
                        now,
                        ticker,
                        old(self).bounds,
                    )
                }),
            decreases n - i,
        {
            let ghost pre = ObjectsPass {
                objects: kept@,
                monsters: self.monsters@,
                score: self.score,
                events: events@,
            };
            let o = self.objects[i];
            let next = o.next_location(ticker);
            if !in_bounds(next, self.bounds) {
                events.push(
                    RenderAction::Remove {
                        unit: UnitTag::Projectile { spell: o.spell },
                        coord: o.location,
                    },
                );
            } else {
                match find_hit(&self.monsters, next) {
                    Some(j) => {
                        let monster = self.monsters.remove(j);
                        proof {
                            assert(forall|k: int|
                                0 <= k < self.monsters@.len() ==> #[trigger] self.monsters@[k].wf());
                        }
                        if self.score < i32::MAX {
                            self.score = self.score + 1;
                        }
                        events.push(
                            RenderAction::Remove {
                                unit: UnitTag::Monster { id: monster.id },
                                coord: monster.location,
                            },
                        );
                        events.push(
                            RenderAction::Remove {
                                unit: UnitTag::Projectile { spell: o.spell },
                                coord: o.location,
                            },
                        );
                    },
                    None => {
                        let mut moved = o;
                        moved.set_location(next, ticker);
                        kept.push(moved);
                        if next.x != o.location.x || next.y != o.location.y {
                            events.push(
                                RenderAction::Move {
                                    unit: UnitTag::Projectile { spell: o.spell },
                                    old: o.location,
                                    new: next,
                                },
                            );
                        }
                    },
                }
            }
            proof {
                let now = ObjectsPass {
                    objects: kept@,
                    monsters: self.monsters@,
                    score: self.score,
                    events: events@,
                };
                assert(now == spec_object_step(
                    pre,
                    old(self).objects@.skip(i as int)[0],
                    ticker,
                    old(self).bounds,
                ));
                assert(old(self).objects@.skip(i as int).skip(1) =~= old(self).objects@.skip(
                    i as int + 1,
                ));
            }
            i = i + 1;
        }
        proof {
            assert(old(self).objects@.skip(n as int) =~= Seq::<Projectile>::empty());
        }
        self.objects = kept;
    }
}

/// Accumulator of the command pass: the player as commands act on it, the
/// projectiles (those in flight plus those just cast), the movement vector
/// summed from the held direction keys, and the render events emitted.
pub ghost struct InputPass {
    pub player: PlayerView,
    pub objects: Seq<Projectile>,
    pub step: Point,
    pub events: Seq<RenderAction>,
}

/// Freshly cast projectiles appended one by one: each that appears inside
/// the arena joins the live set with a create event; one that appears on or
/// beyond the border vanishes at once.
pub open spec fn spec_spawn_projectiles(
    objects: Seq<Projectile>,
    events: Seq<RenderAction>,
    projs: Seq<Projectile>,
    bounds: Point,
) -> (Seq<Projectile>, Seq<RenderAction>)
    decreases projs.len(),
{
    if projs.len() == 0 {
        (objects, events)
    } else {
        let p = projs[0];
        if spec_in_bounds(p.location, bounds) {
            spec_spawn_projectiles(
                objects.push(p),
                events.push(
                    RenderAction::Create {
                        unit: UnitTag::Projectile { spell: p.spell },
                        location: p.location,
                    },
                ),
                projs.skip(1),
                bounds,
            )
        } else {
            spec_spawn_projectiles(objects, events, projs.skip(1), bounds)
        }
    }
}

/// A cast toward `direction`: only if the active spell is off cooldown and
/// affordable; the cost is paid once and the projectiles spawn.
pub open spec fn spec_cast(acc: InputPass, direction: Point, ticker: u128, bounds: Point)
    -> InputPass {
    if spec_can_evoke(acc.player, ticker) {
        let projs = spec_evoke_projectiles(
            acc.player.active(),
            acc.player.location,
            direction,
            ticker,
        );
        let spawned = spec_spawn_projectiles(acc.objects, acc.events, projs, bounds);
        InputPass {
            player: spec_evoked_player(acc.player, ticker),
            objects: spawned.0,
            events: spawned.1,
            ..acc
        }
    } else {
        acc
    }
}

/// One input state decoded and applied: movement keys add their unit vector
/// to the frame's movement sum; press-class states fire their one-shot
/// command.
pub open spec fn spec_command_step(
    acc: InputPass,
    s: InputState,
    mouse: Coord,
    ticker: u128,
    bounds: Point,
) -> InputPass {
    match spec_state_command(s) {
        Option::None => acc,
        Option::Some(c) => match c {
            Command::Move(d) => InputPass {
                step: spec_add(acc.step, spec_direction_point(d)),
                ..acc
            },
            Command::Evoke(d) => spec_cast(acc, spec_direction_point(d), ticker, bounds),
            Command::EvokeMouse => spec_cast(
                acc,
                spec_sub(spec_from_coord(mouse), acc.player.location),
                ticker,
                bounds,
            ),
            Command::CycleSpell(f) => InputPass { player: spec_cycled(acc.player, f), ..acc },
            Command::SelectSpell(ix) => InputPass { player: spec_selected(acc.player, ix), ..acc },
        },
    }
}

/// The command pass folded over the frame's input states, in order.
pub open spec fn spec_input_pass(
    states: Seq<InputState>,
    acc: InputPass,
    mouse: Coord,
    ticker: u128,
    bounds: Point,
) -> InputPass
    decreases states.len(),
{
    if states.len() == 0 {
        acc
    } else {
        spec_input_pass(
            states.skip(1),
            spec_command_step(acc, states[0], mouse, ticker, bounds),
            mouse,
            ticker,
            bounds,
        )
    }
}

/// The player phase after the commands: a non-zero movement sum asks for a
/// move, committed only inside the arena (a blocked move still refreshes the
/// tick reference); with no movement at all, the idle frame recharges.
pub open spec fn spec_player_move(p: PlayerView, step: Point, ticker: u128, bounds: Point) -> (
    PlayerView,
    Seq<RenderAction>,
) {
    if step != (Point { x: 0, y: 0 }) {
        let next = spec_next_location(p, step, ticker);
        if spec_in_bounds(next, bounds) {
            (
                spec_moved_player(p, next, ticker),
                seq![
                    RenderAction::Move { unit: UnitTag::Player, old: p.location, new: next },
                ],
            )
        } else {
            (PlayerView { last_tick: ticker, ..p }, seq![])
        }
    } else {
        (spec_charged(p, ticker), seq![])
    }
}

impl State {
    /// Decode and apply this frame's input states in order: accumulate the
    /// movement vector, and fire the one-shot casting and spell-selection
    /// commands. Returns the accumulated movement vector.
    fn apply_inputs(
        &mut self,
        input_states: &Vec<InputState>,
        mouse: Coord,
        ticker: u128,
        events: &mut Vec<RenderAction>,
    ) -> (step: Point)
        requires
            old(self).player@.wf(),
        ensures
            ({
                let ip = spec_input_pass(
                    input_states@,
                    InputPass {
                        player: old(self).player@,
                        objects: old(self).objects@,
                        step: Point { x: 0, y: 0 },
                        events: old(events)@,
                    },
                    mouse,
                    ticker,
                    old(self).bounds,
                );
                &&& final(self).player@ == ip.player
                &&& final(self).objects@ == ip.objects
                &&& final(events)@ == ip.events
                &&& step == ip.step
            }),
            final(self).player@.wf(),
            final(self).monsters@ == old(self).monsters@,
            final(self).score == old(self).score,
            final(self).ticker == old(self).ticker,
            final(self).bounds == old(self).bounds,
            final(self).last_spawn_tick == old(self).last_spawn_tick,
    {
        let ghost acc0 = InputPass {
            player: old(self).player@,
            objects: old(self).objects@,
            step: Point { x: 0, y: 0 },
            events: old(events)@,
        };
        let mut step = Point::new(0, 0);
        let mut i: usize = 0;
        let n = input_states.len();
        proof {
            assert(input_states@.skip(0) =~= input_states@);
        }
        while i < n
            invariant
                i <= n,
                n == input_states@.len(),
                self.player@.wf(),
                self.monsters@ == old(self).monsters@,
                self.score == old(self).score,
                self.ticker == old(self).ticker,
                self.bounds == old(self).bounds,
                self.last_spawn_tick == old(self).last_spawn_tick,
                ({
                    let now = InputPass {
                        player: self.player@,
                        objects: self.objects@,
                        step: step,
                        events: events@,
                    };
                    spec_input_pass(input_states@, acc0, mouse, ticker, old(self).bounds)
                        == spec_input_pass(
                        input_states@.skip(i as int),
                        now,
                        mouse,
                        ticker,
                        old(self).bounds,
                    )
                }),
            decreases n - i,
        {
            let ghost pre = InputPass {
                player: self.player@,
                objects: self.objects@,
                step: step,
                events: events@,
            };
            let state = input_states[i];
            match state.as_command() {
                None => {},
                Some(Command::Move(d)) => {
                    step = step.add(d.as_point());
                },
                Some(Command::Evoke(d)) => {
                    self.cast(d.as_point(), ticker, events);
                },
                Some(Command::EvokeMouse) => {
                    let direction = Point::from_coord(mouse).sub(self.player.location);
                    self.cast(direction, ticker, events);
                },
                Some(Command::CycleSpell(f)) => {
                    self.player.cycle_spell(f);
                },
                Some(Command::SelectSpell(ix)) => {
                    self.player.select_spell(ix);
                },
            }
            proof {
                let now = InputPass {
                    player: self.player@,
                    objects: self.objects@,
                    step: step,
                    events: events@,
                };
                assert(now == spec_command_step(
                    pre,
                    input_states@.skip(i as int)[0],
                    mouse,
                    ticker,
                    old(self).bounds,
                ));
                assert(input_states@.skip(i as int).skip(1) =~= input_states@.skip(i as int + 1));
            }
            i = i + 1;
        }
        proof {
            assert(input_states@.skip(n as int) =~= Seq::<InputState>::empty());
        }
        step
    }

    /// One cast attempt toward `direction`: checked against cost and
    /// cooldown, and each projectile that appears inside the arena joins the
    /// live set.
    fn cast(&mut self, direction: Point, ticker: u128, events: &mut Vec<RenderAction>)
        requires
            old(self).player@.wf(),
        ensures
            ({
                let acc = spec_cast(
                    InputPass {
                        player: old(self).player@,
                        objects: old(self).objects@,
                        step: Point { x: 0, y: 0 },
                        events: old(events)@,
                    },
                    direction,
                    ticker,
                    old(self).bounds,
                );
                &&& final(self).player@ == acc.player
                &&& final(self).objects@ == acc.objects
                &&& final(events)@ == acc.events
            }),
            final(self).player@.wf(),
            final(self).monsters@ == old(self).monsters@,
            final(self).score == old(self).score,
            final(self).ticker == old(self).ticker,
            final(self).bounds == old(self).bounds,
            final(self).last_spawn_tick == old(self).last_spawn_tick,
    {
        if self.player.active_spell_can_evoke(ticker) {
            let projs = self.player.active_spell_evoke(direction, ticker);
            let ghost obj0 = self.objects@;
            let ghost ev0 = events@;
            let mut k: usize = 0;
            let pn = projs.len();
            proof {
                assert(projs@.skip(0) =~= projs@);
            }
            while k < pn
                invariant
                    k <= pn,
                    pn == projs@.len(),
                    self.player@ == spec_evoked_player(old(self).player@, ticker),
                    self.monsters@ == old(self).monsters@,
                    self.score == old(self).score,
                    self.ticker == old(self).ticker,
                    self.bounds == old(self).bounds,
                    self.last_spawn_tick == old(self).last_spawn_tick,
                    spec_spawn_projectiles(obj0, ev0, projs@, old(self).bounds)
                        == spec_spawn_projectiles(
                        self.objects@,
                        events@,
                        projs@.skip(k as int),
                        old(self).bounds,
                    ),
                decreases pn - k,
            {
                let p = projs[k];
                if in_bounds(p.location, self.bounds) {
                    events.push(
                        RenderAction::Create {
                            unit: UnitTag::Projectile { spell: p.spell },
                            location: p.location,
                        },
                    );
                    self.objects.push(p);
                }
                proof {
                    assert(projs@.skip(k as int).skip(1) =~= projs@.skip(k as int + 1));
                }
                k = k + 1;
            }
            proof {
                assert(projs@.skip(pn as int) =~= Seq::<Projectile>::empty());
            }
        }
    }

    /// The player phase: commit the frame's movement if any and allowed,
    /// else refresh the clock; recharge on a frame without movement input.
    fn move_player(&mut self, step: Point, ticker: u128, events: &mut Vec<RenderAction>)
        requires
            old(self).player@.wf(),
        ensures
            ({
                let pm = spec_player_move(old(self).player@, step, ticker, old(self).bounds);
                &&& final(self).player@ == pm.0
                &&& final(events)@ == old(events)@ + pm.1
            }),
            final(self).player@.wf(),
            final(self).monsters@ == old(self).monsters@,
            final(self).objects@ == old(self).objects@,
            final(self).score == old(self).score,
            final(self).ticker == old(self).ticker,
            final(self).bounds == old(self).bounds,
            final(self).last_spawn_tick == old(self).last_spawn_tick,
    {
        if step.x != 0 || step.y != 0 {
            let prev = self.player.location;
            let next = self.player.next_location(step, ticker);
            if in_bounds(next, self.bounds) {
                self.player.set_location(next, ticker);
                events.push(RenderAction::Move { unit: UnitTag::Player, old: prev, new: next });
                proof {
                    assert(events@ =~= old(events)@ + spec_player_move(
                        old(self).player@,
                        step,
                        ticker,
                        old(self).bounds,
                    ).1);
                }
            } else {
                self.player.set_ticker(ticker);
                proof {
                    assert(events@ =~= old(events)@ + spec_player_move(
                        old(self).player@,
                        step,
                        ticker,
                        old(self).bounds,
                    ).1);
                }
            }
        } else {
            self.player.charge_energy(ticker);
            proof {
                assert(events@ =~= old(events)@ + spec_player_move(
                    old(self).player@,
                    step,
                    ticker,
                    old(self).bounds,
                ).1);
            }
        }
    }
}

/// Whether some other monster's pre-frame position collides with `p`.
pub open spec fn spec_monster_collides(snapshot: Seq<Monster>, i: int, p: Point) -> bool {
    exists|j: int|
        0 <= j < snapshot.len() && j != i && #[trigger] spec_within(snapshot[j].location, p)
}

/// Where the `i`-th monster ends the frame: its seek result is committed
/// only if it differs from the current position, stays inside the arena and
/// collides with no other monster's pre-frame position; in every case the
/// tick reference advances.
pub open spec fn spec_monster_next(
    snapshot: Seq<Monster>,
    i: int,
    player_loc: Point,
    ticker: u128,
    bounds: Point,
) -> Monster {
    let m = snapshot[i];
    match spec_seek(m, player_loc, ticker) {
        Option::None => Monster { last_tick: ticker, ..m },
        Option::Some(next) => {
            if next == m.location {
                Monster { location: next, last_tick: ticker, ..m }
            } else if spec_in_bounds(next, bounds) && !spec_monster_collides(snapshot, i, next) {
                Monster { location: next, last_tick: ticker, ..m }
            } else {
                Monster { last_tick: ticker, ..m }
            }
        },
    }
}

/// Accumulator of the monster pass: the monsters after their moves, the
/// render events emitted, and whether one of them caught the player.
pub ghost struct MonstersPass {
    pub monsters: Seq<Monster>,
    pub events: Seq<RenderAction>,
    pub lost: bool,
}

/// The monster pass from index `i` on: every monster decides against the
/// same pre-frame snapshot, and whatever came of its move, a monster whose
/// resulting position touches the player loses the session.
pub open spec fn spec_monsters_pass(
    snapshot: Seq<Monster>,
    i: int,
    acc: MonstersPass,
    player_loc: Point,
    ticker: u128,
    bounds: Point,
) -> MonstersPass
    decreases snapshot.len() - i,
{
    if i < 0 || i >= snapshot.len() {
        acc
    } else {
        let m2 = spec_monster_next(snapshot, i, player_loc, ticker, bounds);
        let acc2 = MonstersPass {
            monsters: acc.monsters.push(m2),
            events: if m2.location != snapshot[i].location {
                acc.events.push(
                    RenderAction::Move {
                        unit: UnitTag::Monster { id: m2.id },
                        old: snapshot[i].location,
                        new: m2.location,
                    },
                )
            } else {
                acc.events
            },
            lost: acc.lost || spec_within(m2.location, player_loc),
        };
        spec_monsters_pass(snapshot, i + 1, acc2, player_loc, ticker, bounds)
    }
}

fn collides_with_other(monsters: &Vec<Monster>, i: usize, p: Point) -> (r: bool)
    ensures
        r == spec_monster_collides(monsters@, i as int, p),
{
    let mut j: usize = 0;
    while j < monsters.len()
        invariant
            j <= monsters@.len(),
            forall|k: int|
                0 <= k < j && k != i as int ==> !#[trigger] spec_within(monsters@[k].location, p),
        decreases monsters@.len() - j,
    {
        if j != i && within(monsters[j].location, p) {
            return true;
        }
        j = j + 1;
    }
    false
}

impl State {
    /// Move every monster once: each seeks the player from the pre-frame
    /// snapshot, blocked moves are dropped, and a monster that ends its
    /// frame on the player loses the session.
    fn advance_monsters(&mut self, ticker: u128, events: &mut Vec<RenderAction>) -> (lost: bool)
        requires
            forall|i: int|
                0 <= i < old(self).monsters@.len() ==> #[trigger] old(self).monsters@[i].wf(),
        ensures
            ({
                let mp = spec_monsters_pass(
                    old(self).monsters@,
                    0,
                    MonstersPass { monsters: seq![], events: old(events)@, lost: false },
                    old(self).player@.location,
                    ticker,
                    old(self).bounds,
                );
                &&& final(self).monsters@ == mp.monsters
                &&& final(events)@ == mp.events
                &&& lost == mp.lost
            }),
            forall|i: int|
                0 <= i < final(self).monsters@.len() ==> #[trigger] final(self).monsters@[i].wf(),
            final(self).player == old(self).player,
            final(self).objects@ == old(self).objects@,
            final(self).score == old(self).score,
            final(self).ticker == old(self).ticker,
            final(self).bounds == old(self).bounds,
            final(self).last_spawn_tick == old(self).last_spawn_tick,
    {
        let ghost acc0 = MonstersPass { monsters: seq![], events: old(events)@, lost: false };
        let mut moved: Vec<Monster> = Vec::new();
        let mut lost = false;
        let mut i: usize = 0;
        let n = self.monsters.len();
        let player_loc = self.player.location;
        while i < n
            invariant
                i <= n,
                n == old(self).monsters@.len(),
                self.monsters@ == old(self).monsters@,
                forall|k: int|
                    0 <= k < old(self).monsters@.len() ==> #[trigger] old(self).monsters@[k].wf(),
                forall|k: int| 0 <= k < moved@.len() ==> #[trigger] moved@[k].wf(),
                self.player == old(self).player,
                player_loc == old(self).player@.location,
                self.objects@ == old(self).objects@,
                self.score == old(self).score,
                self.ticker == old(self).ticker,
                self.bounds == old(self).bounds,
                self.last_spawn_tick == old(self).last_spawn_tick,
                ({
                    let now = MonstersPass { monsters: moved@, events: events@, lost: lost };
                    spec_monsters_pass(
                        old(self).monsters@,
                        0,
                        acc0,
                        old(self).player@.location,
                        ticker,
                        old(self).bounds,
                    ) == spec_monsters_pass(
                        old(self).monsters@,
                        i as int,
                        now,
                        old(self).player@.location,
                        ticker,
                        old(self).bounds,
                    )
                }),
            decreases n - i,
        {
            let m = self.monsters[i];
            let mut m2 = m;
            match m.seek(player_loc, ticker) {
                None => {
                    m2.set_ticker(ticker);
                },
                Some(next) => {
                    if next.x == m.location.x && next.y == m.location.y {
                        m2.set_location(next, ticker);
                    } else if in_bounds(next, self.bounds) && !collides_with_other(
                        &self.monsters,
                        i,
                        next,
                    ) {
                        m2.set_location(next, ticker);
                        events.push(
                            RenderAction::Move {
                                unit: UnitTag::Monster { id: m2.id },
                                old: m.location,
                                new: next,
                            },
                        );
                    } else {
                        m2.set_ticker(ticker);
                    }
                },
            }
            proof {
                assert(m2 == spec_monster_next(
                    old(self).monsters@,
                    i as int,
                    old(self).player@.location,
                    ticker,
                    old(self).bounds,
                ));
            }
            proof {
                assert(old(self).monsters@[i as int].wf());
                assert(m2.wf());
            }
            if within(m2.location, player_loc) {
                lost = true;
            }
            moved.push(m2);
            i = i + 1;
        }
        self.monsters = moved;
        lost
    }
}

/// The interval between monster spawns, in ticks.
pub const SPAWN_INTERVAL: u128 = 5_000;

/// The largest monster population that still spawns replacements.
pub const MAX_LIVE_MONSTERS: usize = 3;

/// Whether a frame at `ticker` spawns a replacement monster.
pub open spec fn spec_should_spawn(n_monsters: int, ticker: u128, last_spawn: u128) -> bool {
    &&& n_monsters < MAX_LIVE_MONSTERS as int
    &&& (if ticker >= last_spawn {
        ticker - last_spawn
    } else {
        0
    }) >= SPAWN_INTERVAL as int
}

/// The monster a spawn at `ticker` creates, up to its random id: the fixed
/// spawn cell with the default logic and speed.
pub open spec fn spec_spawned_monster(id: u64, ticker: u128) -> Monster {
    Monster {
        location: spec_from_coord(Coord { x: 4, y: 4 }),
        logic: crate::monster::DEFAULT_MONSTER_LOGIC,
        id,
        speed: crate::monster::DEFAULT_MONSTER_SPEED,
        last_tick: ticker,
    }
}

/// How a frame ends: a monster catching the player loses at once, reaching
/// the exit cell wins, and otherwise the session goes on.
#[derive(Clone, Copy, PartialEq, Eq, Structural, Debug)]
pub enum FrameOutcome {
    Continue,
    Won,
    Lost,
}

/// The exit the player must reach to win.
pub open spec fn spec_exit_location() -> Point {
    spec_from_coord(Coord { x: 1, y: 1 })
}

/// How the frame ends, given whether a monster caught the player and where
/// the player stands.
pub open spec fn spec_outcome(lost: bool, player_loc: Point) -> FrameOutcome {
    if lost {
        FrameOutcome::Lost
    } else if spec_within(player_loc, spec_exit_location()) {
        FrameOutcome::Won
    } else {
        FrameOutcome::Continue
    }
}

/// Everything one frame does before spawning: the projectile pass, the
/// command pass, the player move, and the monster pass, with the score
/// forced to zero on a loss. Returns the new state, the render events, and
/// the loss flag.
pub open spec fn spec_frame_core(
    s: StateView,
    states: Seq<InputState>,
    mouse: Coord,
    ticker: u128,
) -> (StateView, Seq<RenderAction>, bool) {
    let op = spec_objects_pass(
        s.objects,
        ObjectsPass { objects: seq![], monsters: s.monsters, score: s.score, events: seq![] },
        ticker,
        s.bounds,
    );
    let ip = spec_input_pass(
        states,
        InputPass {
            player: s.player,
            objects: op.objects,
            step: Point { x: 0, y: 0 },
            events: op.events,
        },
        mouse,
        ticker,
        s.bounds,
    );
    let pm = spec_player_move(ip.player, ip.step, ticker, s.bounds);
    let mp = spec_monsters_pass(
        op.monsters,
        0,
        MonstersPass { monsters: seq![], events: ip.events + pm.1, lost: false },
        pm.0.location,
        ticker,
        s.bounds,
    );
    (
        StateView {
            score: if mp.lost {
                0
            } else {
                op.score
            },
            ticker,
            monsters: mp.monsters,
            player: pm.0,
            objects: ip.objects,
            bounds: s.bounds,
            last_spawn_tick: s.last_spawn_tick,
        },
        mp.events,
        mp.lost,
    )
}

impl State {
    /// A fresh session in an arena of `bounds` micro-cells: the player in
    /// the middle, four monsters of varied temperament in the quarters, no
    /// projectiles, and the score at zero.
    pub fn new(bounds: Point) -> (s: State)
        requires
            0 < bounds.x,
            0 < bounds.y,
        ensures
            s@.wf(),
            s@.score == 0i32 && s@.ticker == 0u128 && s@.last_spawn_tick == 0u128,
            s@.bounds == bounds,
            s@.objects.len() == 0,
            s@.player.location == (Point { x: (bounds.x / 2) as i64, y: (bounds.y / 2) as i64 }),
            s@.player.energy == 100u32,
            s@.monsters.len() == 4,
            s@.monsters[0].location == (Point { x: (bounds.x / 4) as i64, y: (bounds.y / 4) as i64 }),
            s@.monsters[1].location == (Point { x: ((bounds.x / 4) * 3) as i64, y: (bounds.y / 4) as i64 }),
            s@.monsters[2].location == (Point { x: ((bounds.x / 4) * 3) as i64, y: ((bounds.y / 4) * 3) as i64 }),
            s@.monsters[3].location == (Point { x: (bounds.x / 4) as i64, y: ((bounds.y / 4) * 3) as i64 }),
            s@.monsters[1].logic == 40usize && s@.monsters[1].speed == 3000u32,
            s@.monsters[2].logic == 150usize,
            s@.monsters[3].logic == 200usize,
    {
        let quarter_x = bounds.x / 4;
        let quarter_y = bounds.y / 4;
        proof {
            assert(0 <= bounds.x / 4 <= bounds.x && 0 <= bounds.y / 4 <= bounds.y);
            assert((bounds.x / 4) * 3 <= i64::MAX && (bounds.y / 4) * 3 <= i64::MAX)
                by (nonlinear_arith)
                requires
                    0 <= bounds.x / 4 <= i64::MAX / 4 + 1 && 0 <= bounds.y / 4 <= i64::MAX / 4 + 1,
            ;
        }
        let mut monsters: Vec<Monster> = Vec::new();
        monsters.push(Monster::new_simple(Point::new(quarter_x, quarter_y), 0));
        monsters.push(
            Monster::new(Point::new(quarter_x * 3, quarter_y), 0, Some(40), Some(3000)),
        );
        monsters.push(Monster::new(Point::new(quarter_x * 3, quarter_y * 3), 0, Some(150), None));
        monsters.push(Monster::new(Point::new(quarter_x, quarter_y * 3), 0, Some(200), None));
        State {
            score: 0,
            ticker: 0,
            monsters,
            player: Player::new(Point::new(bounds.x / 2, bounds.y / 2), 0),
            objects: Vec::new(),
            bounds,
            last_spawn_tick: 0,
        }
    }

    /// Run one frame at `ticker`: advance and collide the projectiles,
    /// decode and apply the input states against the pointer cell `mouse`,
    /// move the player, move the monsters, spawn a replacement monster when
    /// the population has been short for long enough, and say how the
    /// session stands. Returns the frame's render events in order.
    pub fn frame(&mut self, input_states: &Vec<InputState>, mouse: Coord, ticker: u128) -> (r: (
        Vec<RenderAction>,
        FrameOutcome,
    ))
        requires
            old(self)@.wf(),
        ensures
            final(self)@.wf(),
            ({
                let (core, evs, lost) = spec_frame_core(old(self)@, input_states@, mouse, ticker);
                &&& r.1 == spec_outcome(lost, core.player.location)
                &&& if spec_should_spawn(core.monsters.len() as int, ticker, core.last_spawn_tick) {
                    exists|id: u64|
                        {
                            &&& final(self)@ == (StateView {
                                monsters: core.monsters.push(
                                    #[trigger] spec_spawned_monster(id, ticker),
                                ),
                                last_spawn_tick: ticker,
                                ..core
                            })
                            &&& r.0@ == evs.push(
                                RenderAction::Create {
                                    unit: UnitTag::Monster { id },
                                    location: spec_from_coord(Coord { x: 4, y: 4 }),
                                },
                            )
                        }
                } else {
                    final(self)@ == core && r.0@ == evs
                }
            }),
    {
        self.ticker = ticker;
        let mut events: Vec<RenderAction> = Vec::new();
        self.advance_objects(ticker, &mut events);
        let step = self.apply_inputs(input_states, mouse, ticker, &mut events);
        self.move_player(step, ticker, &mut events);
        let lost = self.advance_monsters(ticker, &mut events);
        if lost {
            self.score = 0;
        }
        let ghost core = spec_frame_core(old(self)@, input_states@, mouse, ticker);
        proof {
            assert(self@ == core.0);
            assert(events@ == core.1);
            assert(lost == core.2);
        }
        if self.monsters.len() < MAX_LIVE_MONSTERS && ticker.saturating_sub(self.last_spawn_tick)
            >= SPAWN_INTERVAL {
            let m = Monster::new(Point::from_coord(Coord::new(4, 4)), ticker, None, None);
            events.push(
                RenderAction::Create { unit: UnitTag::Monster { id: m.id }, location: m.location },
            );
            self.monsters.push(m);
            self.last_spawn_tick = ticker;
            proof {
                assert(m == spec_spawned_monster(m.id, ticker));
                assert(self@ == (StateView {
                    monsters: core.0.monsters.push(spec_spawned_monster(m.id, ticker)),
                    last_spawn_tick: ticker,
                    ..core.0
                }));
            }
        }
        let at_exit = within(self.player.location, Point::from_coord(Coord::new(1, 1)));
        let outcome = if lost {
            FrameOutcome::Lost
        } else if at_exit {
            FrameOutcome::Won
        } else {
            FrameOutcome::Continue
        };
        (events, outcome)
    }
}

} // verus!
