use dungeon::coord::Coord;
use dungeon::engine::{FrameOutcome, State};
use dungeon::input::{Input, InputState, Key};
use dungeon::magic::{FireballMagic, Magic, Projectile, Spell};
use dungeon::monster::Monster;
use dungeon::player::Player;
use dungeon::point::Point;
use dungeon::render::{RenderAction, UnitTag};

fn arena(cells: i32) -> Point {
    Point::from_coord(Coord::new(cells, cells))
}

fn empty_state(bounds: Point, player_at: Point) -> State {
    State {
        score: 0,
        ticker: 0,
        monsters: Vec::new(),
        player: Player::new(player_at, 0),
        objects: Vec::new(),
        bounds,
        last_spawn_tick: 0,
    }
}

#[test]
fn new_session_layout() {
    let s = State::new(arena(20));
    assert_eq!(s.score, 0);
    assert_eq!(s.player.location, Point::new(10_000_000, 10_000_000));
    assert_eq!(s.monsters.len(), 4);
    assert_eq!(s.monsters[0].location, Point::new(5_000_000, 5_000_000));
    assert_eq!(s.monsters[1].logic, 40);
    assert_eq!(s.monsters[1].speed, 3000);
    assert_eq!(s.monsters[2].logic, 150);
    assert_eq!(s.monsters[3].logic, 200);
    assert!(s.objects.is_empty());
}

#[test]
fn out_of_bounds_move_is_rejected() {
    // player at (5,5) in a 10x10 arena, moving right for 1000 ticks at
    // 5/1000 cells per tick: x would reach 10, the wall, so nothing moves
    let mut s = empty_state(arena(10), Point::new(5_000_000, 5_000_000));
    let inputs = vec![InputState::Active(Input::Key(Key::Char('d')))];
    let (events, outcome) = s.frame(&inputs, Coord::new(0, 0), 1000);

    assert_eq!(s.player.location, Point::new(5_000_000, 5_000_000));
    assert_eq!(outcome, FrameOutcome::Continue);
    assert!(events.is_empty());
    // the tick reference still advanced: the lost time is not replayed
    assert_eq!(s.player.last_tick, 1000);
}

#[test]
fn in_bounds_move_is_committed() {
    let mut s = empty_state(arena(10), Point::new(5_000_000, 5_000_000));
    let inputs = vec![InputState::Active(Input::Key(Key::Char('d')))];
    let (events, outcome) = s.frame(&inputs, Coord::new(0, 0), 500);

    assert_eq!(s.player.location, Point::new(7_500_000, 5_000_000));
    assert_eq!(outcome, FrameOutcome::Continue);
    assert_eq!(
        events,
        vec![RenderAction::Move {
            unit: UnitTag::Player,
            old: Point::new(5_000_000, 5_000_000),
            new: Point::new(7_500_000, 5_000_000),
        }]
    );
}

#[test]
fn diagonal_movement_sums_held_keys() {
    let mut s = empty_state(arena(20), Point::new(5_000_000, 5_000_000));
    let inputs = vec![
        InputState::Active(Input::Key(Key::Char('d'))),
        InputState::Active(Input::Key(Key::Char('s'))),
    ];
    let (_, _) = s.frame(&inputs, Coord::new(0, 0), 1000);
    // unit of (1,1) is (707107, 707107) micro-cells; five cells of travel
    assert_eq!(
        s.player.location,
        Point::new(5_000_000 + 3_535_535, 5_000_000 + 3_535_535)
    );
}

#[test]
fn reaching_the_exit_wins() {
    let mut s = empty_state(arena(10), Point::new(1_200_000, 1_000_000));
    let (_, outcome) = s.frame(&Vec::new(), Coord::new(0, 0), 10);
    assert_eq!(outcome, FrameOutcome::Won);
    assert_eq!(s.score, 0);
}

#[test]
fn monster_on_the_player_loses_and_zeroes_the_score() {
    let mut s = empty_state(arena(10), Point::new(5_000_000, 5_000_000));
    s.score = 3;
    let mut m = Monster::new_simple(Point::new(5_400_000, 5_000_000), 0);
    m.last_tick = 50;
    s.monsters.push(m);

    // no elapsed time for the monster: wherever its draw points, it stays
    // within reach of the player
    let (_, outcome) = s.frame(&Vec::new(), Coord::new(0, 0), 50);
    assert_eq!(outcome, FrameOutcome::Lost);
    assert_eq!(s.score, 0);
}

#[test]
fn projectile_advances_with_a_move_event() {
    let mut s = empty_state(arena(10), Point::new(8_000_000, 8_000_000));
    s.objects.push(Projectile {
        location: Point::new(5_000_000, 5_000_000),
        vector: Point::new(10_000, 0),
        speed: 10_000,
        last_tick: 0,
        spell: Spell::Fireball,
    });

    let (events, _) = s.frame(&Vec::new(), Coord::new(0, 0), 100);
    assert_eq!(s.objects.len(), 1);
    assert_eq!(s.objects[0].location, Point::new(6_000_000, 5_000_000));
    assert_eq!(s.objects[0].last_tick, 100);
    assert!(events.contains(&RenderAction::Move {
        unit: UnitTag::Projectile { spell: Spell::Fireball },
        old: Point::new(5_000_000, 5_000_000),
        new: Point::new(6_000_000, 5_000_000),
    }));
}

#[test]
fn projectile_leaving_the_arena_is_removed() {
    let mut s = empty_state(arena(10), Point::new(8_000_000, 8_000_000));
    s.objects.push(Projectile {
        location: Point::new(9_500_000, 5_000_000),
        vector: Point::new(10_000, 0),
        speed: 10_000,
        last_tick: 0,
        spell: Spell::Fireball,
    });

    let (events, _) = s.frame(&Vec::new(), Coord::new(0, 0), 100);
    assert!(s.objects.is_empty());
    assert!(events.contains(&RenderAction::Remove {
        unit: UnitTag::Projectile { spell: Spell::Fireball },
        coord: Point::new(9_500_000, 5_000_000),
    }));
}

#[test]
fn projectile_hit_destroys_both_and_scores() {
    let mut s = empty_state(arena(10), Point::new(8_000_000, 8_000_000));
    let mut m = Monster::new_simple(Point::new(5_500_000, 5_000_000), 0);
    m.last_tick = 50;
    s.monsters.push(m);
    s.objects.push(Projectile {
        location: Point::new(5_000_000, 5_000_000),
        vector: Point::new(10_000, 0),
        speed: 10_000,
        last_tick: 0,
        spell: Spell::Fireball,
    });

    let (events, outcome) = s.frame(&Vec::new(), Coord::new(0, 0), 50);
    assert_eq!(outcome, FrameOutcome::Continue);
    assert_eq!(s.score, 1);
    assert!(s.objects.is_empty());
    assert!(s.monsters.is_empty());
    assert!(events.iter().any(|e| matches!(
        e,
        RenderAction::Remove { unit: UnitTag::Monster { .. }, .. }
    )));
}

#[test]
fn casting_through_the_frame_spawns_a_projectile() {
    let mut s = empty_state(arena(20), Point::new(5_000_000, 5_000_000));
    s.player.select_spell(0);
    let inputs = vec![InputState::Press(Input::Key(Key::Char('l')))];
    let (events, _) = s.frame(&inputs, Coord::new(0, 0), 10);

    assert_eq!(s.objects.len(), 1);
    assert_eq!(s.objects[0].location, Point::new(6_000_000, 5_000_000));
    assert_eq!(s.objects[0].vector, Point::new(10_000, 0));
    assert_eq!(s.player.energy, 90);
    assert!(events.contains(&RenderAction::Create {
        unit: UnitTag::Projectile { spell: Spell::Fireball },
        location: Point::new(6_000_000, 5_000_000),
    }));
}

#[test]
fn holding_the_cast_key_does_not_refire() {
    let mut s = empty_state(arena(20), Point::new(5_000_000, 5_000_000));
    s.player.select_spell(0);
    // the press casts once; the key staying active afterwards does not
    let (_, _) = s.frame(
        &vec![InputState::Press(Input::Key(Key::Char('l')))],
        Coord::new(0, 0),
        10,
    );
    assert_eq!(s.player.energy, 90);
    let (_, _) = s.frame(
        &vec![InputState::Active(Input::Key(Key::Char('l')))],
        Coord::new(0, 0),
        20,
    );
    assert_eq!(s.player.energy, 90);
    assert_eq!(s.objects.len(), 1);
}

#[test]
fn spawning_replaces_fallen_monsters() {
    let mut s = empty_state(arena(10), Point::new(8_000_000, 8_000_000));
    assert_eq!(s.monsters.len(), 0);

    // not yet: the spawn interval has not passed
    let (_, _) = s.frame(&Vec::new(), Coord::new(0, 0), 4_999);
    assert_eq!(s.monsters.len(), 0);

    let (events, _) = s.frame(&Vec::new(), Coord::new(0, 0), 5_000);
    assert_eq!(s.monsters.len(), 1);
    assert_eq!(s.monsters[0].location, Point::new(4_000_000, 4_000_000));
    assert_eq!(s.last_spawn_tick, 5_000);
    assert!(matches!(
        events.last(),
        Some(RenderAction::Create { unit: UnitTag::Monster { .. }, .. })
    ));

    // and not again at once
    let (_, _) = s.frame(&Vec::new(), Coord::new(0, 0), 5_100);
    assert_eq!(s.monsters.len(), 1);
}

#[test]
fn spell_selection_commands_reach_the_player() {
    let mut s = empty_state(arena(10), Point::new(5_000_000, 5_000_000));
    let (_, _) = s.frame(
        &vec![InputState::Press(Input::Key(Key::Char('3')))],
        Coord::new(0, 0),
        10,
    );
    assert_eq!(s.player.active_spell, 2);

    let (_, _) = s.frame(
        &vec![InputState::Press(Input::Key(Key::Char('o')))],
        Coord::new(0, 0),
        20,
    );
    assert_eq!(s.player.active_spell, 3);

    let (_, _) = s.frame(
        &vec![InputState::Press(Input::Key(Key::Char('u')))],
        Coord::new(0, 0),
        30,
    );
    assert_eq!(s.player.active_spell, 2);
}

#[test]
fn mouse_cast_flies_toward_the_pointer() {
    let mut s = empty_state(arena(20), Point::new(5_000_000, 5_000_000));
    s.player.select_spell(0);
    // pointer straight below the player
    let inputs = vec![InputState::Press(Input::MouseLeft)];
    let (_, _) = s.frame(&inputs, Coord::new(5, 15), 10);

    assert_eq!(s.objects.len(), 1);
    assert_eq!(s.objects[0].location, Point::new(5_000_000, 6_000_000));
    assert_eq!(s.objects[0].vector, Point::new(0, 10_000));
}

#[test]
fn single_minded_monster_pursues_the_player() {
    // logic 1 reduces every draw to zero: always the full pursuit vector
    let mut s = empty_state(arena(20), Point::new(9_000_000, 5_000_000));
    let mut m = Monster::new(Point::new(5_000_000, 5_000_000), 0, Some(1), None);
    m.last_tick = 0;
    s.monsters.push(m);

    // 500 ticks at 2000 micro-cells per tick: exactly one cell to the right
    let (events, outcome) = s.frame(&Vec::new(), Coord::new(0, 0), 500);
    assert_eq!(outcome, FrameOutcome::Continue);
    assert_eq!(s.monsters[0].location, Point::new(6_000_000, 5_000_000));
    assert!(events.iter().any(|e| matches!(
        e,
        RenderAction::Move { unit: UnitTag::Monster { .. }, .. }
    )));
}

#[test]
fn monster_move_blocked_by_another_monster() {
    let mut s = empty_state(arena(20), Point::new(9_000_000, 5_000_000));
    let mut chaser = Monster::new(Point::new(5_000_000, 5_000_000), 0, Some(1), None);
    chaser.last_tick = 0;
    // a second monster parked exactly where the chaser wants to step,
    // itself out of time to move
    let mut wall = Monster::new(Point::new(6_000_000, 5_000_000), 0, Some(1), None);
    wall.last_tick = 500;
    s.monsters.push(chaser);
    s.monsters.push(wall);

    let (_, outcome) = s.frame(&Vec::new(), Coord::new(0, 0), 500);
    assert_eq!(outcome, FrameOutcome::Continue);
    // the chaser's step was rejected, but its clock still advanced
    assert_eq!(s.monsters[0].location, Point::new(5_000_000, 5_000_000));
    assert_eq!(s.monsters[0].last_tick, 500);
    assert_eq!(s.monsters[1].location, Point::new(6_000_000, 5_000_000));
}

#[test]
fn magic_made_fireball_used_by_state() {
    // the loadout built by Player::new really carries a fresh fireball
    let s = State::new(arena(10));
    assert_eq!(
        s.player.spells[0],
        Magic::Fireball(FireballMagic { last_evoke: None })
    );
}
