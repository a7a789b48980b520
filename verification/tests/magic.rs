use dungeon::magic::{FireballMagic, InfernoMagic, Magic, Spell, SphereMagic};
use dungeon::point::Point;
use dungeon::render::{loader, loader_reverse, AsSymbol};

#[test]
fn costs_and_cooldowns() {
    let fireball = Magic::Fireball(FireballMagic::new());
    let sphere = Magic::Sphere(SphereMagic::new());
    let inferno = Magic::Inferno(InfernoMagic::new());

    assert_eq!(fireball.cost(), 10);
    assert_eq!(fireball.cooldown(), 800);
    assert_eq!(sphere.cost(), 5);
    assert_eq!(sphere.cooldown(), 400);
    assert_eq!(inferno.cost(), 80);
    assert_eq!(inferno.cooldown(), 40_000);

    assert_eq!(fireball.get_spell(), Spell::Fireball);
    assert_eq!(sphere.get_spell(), Spell::Sphere);
    assert_eq!(inferno.get_spell(), Spell::Inferno);
}

#[test]
fn fresh_spell_is_never_on_cooldown() {
    let fireball = Magic::Fireball(FireballMagic::new());
    assert!(!fireball.on_cooldown(0));
    assert!(!fireball.on_cooldown(123_456_789));
    assert_eq!(fireball.remaining_cooldown(5), 0);
}

#[test]
fn cooldown_boundary_is_exact() {
    let mut sphere = Magic::Sphere(SphereMagic::new());
    let _ = sphere.evoke(Point::new(0, 0), Point::new(1_000_000, 0), 100);

    // cooldown 400, cast at 100: cooling until tick 500 exactly
    assert!(sphere.on_cooldown(100));
    assert_eq!(sphere.remaining_cooldown(100), 400);
    assert!(sphere.on_cooldown(499));
    assert_eq!(sphere.remaining_cooldown(499), 1);
    assert!(!sphere.on_cooldown(500));
    assert_eq!(sphere.remaining_cooldown(500), 0);
}

#[test]
fn fireball_launches_one_scaled_projectile() {
    let mut fireball = Magic::Fireball(FireballMagic::new());
    let origin = Point::new(5_000_000, 5_000_000);
    let projs = fireball.evoke(origin, Point::new(1_000_000, 0), 7);

    assert_eq!(projs.len(), 1);
    let p = &projs[0];
    // spawned one cell to the right, flying right at 0.01 cells per tick
    assert_eq!(p.location, Point::new(6_000_000, 5_000_000));
    assert_eq!(p.vector, Point::new(10_000, 0));
    assert_eq!(p.speed, 10_000);
    assert_eq!(p.last_tick, 7);
    assert_eq!(p.spell, Spell::Fireball);
}

#[test]
fn sphere_is_half_as_fast() {
    let mut sphere = Magic::Sphere(SphereMagic::new());
    let projs = sphere.evoke(Point::new(0, 0), Point::new(0, -1_000_000), 0);

    assert_eq!(projs.len(), 1);
    assert_eq!(projs[0].location, Point::new(0, -1_000_000));
    assert_eq!(projs[0].vector, Point::new(0, -5_000));
    assert_eq!(projs[0].spell, Spell::Sphere);
}

#[test]
fn inferno_always_returns_24_projectiles() {
    let directions = [
        Point::new(1_000_000, 0),
        Point::new(0, 0),
        Point::new(-123, 456_789),
    ];
    for d in directions {
        let mut inferno = Magic::Inferno(InfernoMagic::new());
        let projs = inferno.evoke(Point::new(5_000_000, 5_000_000), d, 42);
        assert_eq!(projs.len(), 24);
        for p in &projs {
            assert_eq!(p.spell, Spell::Fireball);
            assert_eq!(p.speed, 10_000);
            assert_eq!(p.last_tick, 42);
        }
    }
}

#[test]
fn inferno_ring_ignores_the_direction() {
    let mut a = Magic::Inferno(InfernoMagic::new());
    let mut b = Magic::Inferno(InfernoMagic::new());
    let pa = a.evoke(Point::new(0, 0), Point::new(1_000_000, 0), 9);
    let pb = b.evoke(Point::new(0, 0), Point::new(0, -5), 9);
    assert_eq!(pa, pb);
}

#[test]
fn projectile_flies_its_vector() {
    let mut fireball = Magic::Fireball(FireballMagic::new());
    let mut projs = fireball.evoke(Point::new(0, 0), Point::new(1_000_000, 0), 0);
    let p = &mut projs[0];

    // 100 ticks at 10_000 micro-cells per tick: one cell
    assert_eq!(p.next_location(100), Point::new(2_000_000, 0));
    p.set_location(Point::new(2_000_000, 0), 100);
    assert_eq!(p.next_location(150), Point::new(2_500_000, 0));
}

#[test]
fn spell_symbols() {
    assert_eq!(Spell::Fireball.as_symbol(), '🔥');
    assert_eq!(Spell::Sphere.as_symbol(), '🔵');
    assert_eq!(Spell::Inferno.as_symbol(), '🎆');
}

#[test]
fn loader_fills_toward_the_target() {
    // nothing elapsed: everything still owed
    assert_eq!(loader(0, 800, 800), ' ');
    // halfway: four of nine ninths
    assert_eq!(loader(400, 800, 800), '▄');
    // due now, or overdue: full
    assert_eq!(loader(800, 800, 800), '█');
    assert_eq!(loader(10_000, 800, 800), '█');
}

#[test]
fn loader_reverse_drains_toward_the_target() {
    assert_eq!(loader_reverse(0, 800, 800), '█');
    assert_eq!(loader_reverse(400, 800, 800), '▄');
    assert_eq!(loader_reverse(800, 800, 800), ' ');
}
