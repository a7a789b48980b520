//! Render-intent events the engine hands the presentation layer, and the
//! small symbol helpers the presentation shares: a glyph per spell and the
//! loading-bar glyphs for cooldown and energy indicators.

use vstd::prelude::*;

use crate::magic::Spell;
use crate::point::Point;

verus! {

/// What a render event is about; the presentation layer maps the tag to a
/// glyph and a color of its own choosing.
#[derive(Clone, Copy, PartialEq, Eq, Structural, Debug)]
pub enum UnitTag {
    Player,
    Monster { id: u64 },
    Projectile { spell: Spell },
}

/// One render-intent event: an entity appeared, moved, or disappeared.
#[derive(Clone, Copy, PartialEq, Eq, Structural, Debug)]
pub enum RenderAction {
    Create { unit: UnitTag, location: Point },
    Move { unit: UnitTag, old: Point, new: Point },
    Remove { unit: UnitTag, coord: Point },
}

/// Conversion to a display glyph.
pub trait AsSymbol {
    /// The glyph this value is drawn as.
    spec fn symbol_spec(&self) -> char;

    fn as_symbol(&self) -> (c: char)
        ensures
            c == self.symbol_spec(),
    ;
}

/// The glyph of a spell.
pub open spec fn spec_spell_symbol(s: Spell) -> char {
    match s {
        Spell::Fireball => '🔥',
        Spell::Sphere => '🔵',
        Spell::Inferno => '🎆',
    }
}

impl AsSymbol for Spell {
    open spec fn symbol_spec(&self) -> char {
        spec_spell_symbol(*self)
    }

    fn as_symbol(&self) -> (c: char) {
        match self {
            Spell::Fireball => '🔥',
            Spell::Sphere => '🔵',
            Spell::Inferno => '🎆',
        }
    }
}

/// The bar glyph for a fill level of `ix` ninths, from empty to full.
pub open spec fn spec_loading_symbol(ix: int) -> char {
    if ix <= 0 {
        ' '
    } else if ix == 1 {
        '▁'
    } else if ix == 2 {
        '▂'
    } else if ix == 3 {
        '▃'
    } else if ix == 4 {
        '▄'
    } else if ix == 5 {
        '▅'
    } else if ix == 6 {
        '▆'
    } else if ix == 7 {
        '▇'
    } else {
        '█'
    }
}

fn loading_symbol(ix: u128) -> (c: char)
    ensures
        c == spec_loading_symbol(ix as int),
{
    if ix == 0 {
        ' '
    } else if ix == 1 {
        '▁'
    } else if ix == 2 {
        '▂'
    } else if ix == 3 {
        '▃'
    } else if ix == 4 {
        '▄'
    } else if ix == 5 {
        '▅'
    } else if ix == 6 {
        '▆'
    } else if ix == 7 {
        '▇'
    } else {
        '█'
    }
}

/// How many ninths of a bar are filled while `current` climbs toward
/// `target` over a window of `range` ticks: zero with `range` or more ticks
/// still owed, eight once the target is due.
pub open spec fn spec_loader_index(current: u128, target: u128, range: u128) -> int {
    let owed = if target >= current {
        target - current
    } else {
        0
    };
    let capped = if owed > range {
        range as int
    } else {
        owed
    };
    let v = ((range - capped) * 9) / (range as int);
    if v > 8 {
        8
    } else {
        v
    }
}

/// The loading-bar glyph for progress of `current` toward `target` over a
/// window of `range` ticks, filling up as the target comes due.
pub fn loader(current: u128, target: u128, range: u128) -> (c: char)
    requires
        1 <= range <= u128::MAX / 9,
    ensures
        c == spec_loading_symbol(spec_loader_index(current, target, range)),
{
    loading_symbol(loader_index(current, target, range))
}

/// The loading-bar glyph for progress of `current` toward `target` over a
/// window of `range` ticks, draining as the target comes due.
pub fn loader_reverse(current: u128, target: u128, range: u128) -> (c: char)
    requires
        1 <= range <= u128::MAX / 9,
    ensures
        c == spec_loading_symbol(8 - spec_loader_index(current, target, range)),
{
    let ix = loader_index(current, target, range);
    loading_symbol(8 - ix)
}

fn loader_index(current: u128, target: u128, range: u128) -> (ix: u128)
    requires
        1 <= range <= u128::MAX / 9,
    ensures
        ix as int == spec_loader_index(current, target, range),
        ix <= 8,
{
    let owed = target.saturating_sub(current);
    let capped = if owed > range {
        range
    } else {
        owed
    };
    let filled = range - capped;
    proof {
        vstd::arithmetic::mul::lemma_mul_inequality(filled as int, range as int, 9);
        assert(filled * 9 == 9 * filled && range * 9 == 9 * range) by (nonlinear_arith);
    }
    let v = (filled * 9) / range;
    if v > 8 {
        8
    } else {
        v
    }
}

} // verus!
