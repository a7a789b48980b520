//! The input state tracker: raw press/release/move/scroll events queued
//! between frames become, once per frame, a deduplicated set of semantic
//! input states plus the latest pointer cell.

use vstd::prelude::*;

use crate::coord::Coord;
use crate::input::{
    spec_button_input, spec_scroll_input, Input, InputState, RawEvent,
};

verus! {

/// The tracker's state as a frame drains it: the inputs held, the inputs
/// still counted as held since the frame began, the states emitted so far,
/// and the pointer cell.
pub ghost struct TrackerModel {
    pub pressed: Set<Input>,
    pub still_active: Set<Input>,
    pub emitted: Set<InputState>,
    pub mouse: Coord,
}

/// A press of `i`: a fresh press emits `Press` and `Active` and marks the
/// input held; a repeated press of an already-held input emits nothing.
pub open spec fn spec_press(m: TrackerModel, i: Input) -> TrackerModel {
    if m.pressed.contains(i) {
        m
    } else {
        TrackerModel {
            pressed: m.pressed.insert(i),
            emitted: m.emitted.insert(InputState::Press(i)).insert(InputState::Active(i)),
            ..m
        }
    }
}

/// A release of `i`: `Release` is emitted unconditionally, and the input
/// stops counting as held, both now and for the frame's `Active` sweep.
pub open spec fn spec_release(m: TrackerModel, i: Input) -> TrackerModel {
    TrackerModel {
        pressed: m.pressed.remove(i),
        still_active: m.still_active.remove(i),
        emitted: m.emitted.insert(InputState::Release(i)),
        ..m
    }
}

/// One raw event applied to the model. Every mouse event updates the
/// pointer; a scroll emits only `Press`, since scrolling cannot be held.
pub open spec fn spec_track_event(m: TrackerModel, ev: RawEvent) -> TrackerModel {
    match ev {
        RawEvent::KeyPress(k) => spec_press(m, Input::Key(k)),
        RawEvent::KeyRelease(k) => spec_release(m, Input::Key(k)),
        RawEvent::MouseDown(b, c) => spec_press(
            TrackerModel { mouse: c, ..m },
            spec_button_input(b),
        ),
        RawEvent::MouseUp(b, c) => spec_release(
            TrackerModel { mouse: c, ..m },
            spec_button_input(b),
        ),
        RawEvent::Scroll(d, c) => TrackerModel {
            mouse: c,
            emitted: m.emitted.insert(InputState::Press(spec_scroll_input(d))),
            ..m
        },
        RawEvent::MouseMoved(c) => TrackerModel { mouse: c, ..m },
    }
}

/// The queued events drained in arrival order.
pub open spec fn spec_drain(m: TrackerModel, evs: Seq<RawEvent>) -> TrackerModel
    decreases evs.len(),
{
    if evs.len() == 0 {
        m
    } else {
        spec_drain(spec_track_event(m, evs[0]), evs.skip(1))
    }
}

/// The `Active` states of every input in `s`.
pub open spec fn spec_active_states(s: Set<Input>) -> Set<InputState> {
    Set::new(
        |st: InputState|
            match st {
                InputState::Active(i) => s.contains(i),
                _ => false,
            },
    )
}

/// The model a frame starts from: everything held counts as still active,
/// and nothing is emitted yet.
pub open spec fn spec_frame_start(pressed: Set<Input>, mouse: Coord) -> TrackerModel {
    TrackerModel { pressed, still_active: pressed, emitted: Set::empty(), mouse }
}

/// The full state set one frame returns: what the drain emitted, plus
/// `Active` for every input held before the frame and not released during
/// it.
pub open spec fn spec_frame_states(pressed: Set<Input>, evs: Seq<RawEvent>, mouse: Coord) -> Set<
    InputState,
> {
    let mf = spec_drain(spec_frame_start(pressed, mouse), evs);
    mf.emitted.union(spec_active_states(mf.still_active))
}

/// The set of inputs held after a frame drains `evs`.
pub open spec fn spec_pressed_after(pressed: Set<Input>, evs: Seq<RawEvent>, mouse: Coord) -> Set<
    Input,
> {
    spec_drain(spec_frame_start(pressed, mouse), evs).pressed
}

/// Pushing onto a sequence inserts into its set image.
proof fn lemma_push_to_set<A>(s: Seq<A>, x: A)
    ensures
        s.push(x).to_set() == s.to_set().insert(x),
{
    assert forall|y: A| s.push(x).to_set().contains(y) <==> s.to_set().insert(x).contains(y) by {
        if s.push(x).contains(y) {
            let i = choose|i: int| 0 <= i < s.push(x).len() && s.push(x)[i] == y;
            if i < s.len() {
                assert(s.contains(y));
            }
        }
        if s.contains(y) {
            let i = choose|i: int| 0 <= i < s.len() && s[i] == y;
            assert(s.push(x)[i] == y);
            assert(s.push(x).contains(y));
        }
        if y == x {
            assert(s.push(x)[s.len() as int] == y);
            assert(s.push(x).contains(y));
        }
    }
    assert(s.push(x).to_set() =~= s.to_set().insert(x));
}

/// Removing the only occurrence of an element removes it from the set
/// image.
proof fn lemma_remove_idx_to_set<A>(s: Seq<A>, ix: int)
    requires
        s.no_duplicates(),
        0 <= ix < s.len(),
    ensures
        s.remove(ix).to_set() == s.to_set().remove(s[ix]),
        s.remove(ix).no_duplicates(),
{
    let t = s.remove(ix);
    assert forall|a: int, b: int| 0 <= a < t.len() && 0 <= b < t.len() && a != b implies t[a]
        != t[b] by {
        let sa = if a < ix {
            a
        } else {
            a + 1
        };
        let sb = if b < ix {
            b
        } else {
            b + 1
        };
        assert(t[a] == s[sa] && t[b] == s[sb]);
    }
    assert forall|y: A| t.to_set().contains(y) <==> s.to_set().remove(s[ix]).contains(y) by {
        if t.contains(y) {
            let i = choose|i: int| 0 <= i < t.len() && t[i] == y;
            if i < ix {
                assert(s[i] == y);
                assert(s.contains(y));
            } else {
                assert(s[i + 1] == y);
                assert(s.contains(y));
            }
            assert(y != s[ix]);
        }
        if s.contains(y) && y != s[ix] {
            let i = choose|i: int| 0 <= i < s.len() && s[i] == y;
            if i < ix {
                assert(t[i] == y);
            } else {
                assert(t[i - 1] == y);
            }
            assert(t.contains(y));
        }
    }
    assert(t.to_set() =~= s.to_set().remove(s[ix]));
}

fn contains_input(v: &Vec<Input>, i: Input) -> (r: bool)
    ensures
        r == v@.to_set().contains(i),
{
    let mut k: usize = 0;
    while k < v.len()
        invariant
            k <= v@.len(),
            forall|j: int| 0 <= j < k ==> v@[j] != i,
        decreases v@.len() - k,
    {
        if v[k] == i {
            return true;
        }
        k = k + 1;
    }
    false
}

fn contains_state(v: &Vec<InputState>, s: InputState) -> (r: bool)
    ensures
        r == v@.to_set().contains(s),
{
    let mut k: usize = 0;
    while k < v.len()
        invariant
            k <= v@.len(),
            forall|j: int| 0 <= j < k ==> v@[j] != s,
        decreases v@.len() - k,
    {
        if v[k] == s {
            return true;
        }
        k = k + 1;
    }
    false
}

/// Add a state to the frame's result, keeping it free of duplicates.
fn insert_state(v: &mut Vec<InputState>, s: InputState)
    requires
        old(v)@.no_duplicates(),
    ensures
        final(v)@.no_duplicates(),
        final(v)@.to_set() == old(v)@.to_set().insert(s),
{
    if !contains_state(v, s) {
        proof {
            lemma_push_to_set(v@, s);
        }
        v.push(s);
    } else {
        proof {
            assert(v@.to_set() =~= v@.to_set().insert(s));
        }
    }
}

/// Take an input out of a held-set vector, keeping it free of duplicates.
fn remove_input(v: &mut Vec<Input>, i: Input)
    requires
        old(v)@.no_duplicates(),
    ensures
        final(v)@.no_duplicates(),
        final(v)@.to_set() == old(v)@.to_set().remove(i),
{
    let mut k: usize = 0;
    while k < v.len()
        invariant
            k <= v@.len(),
            v@ == old(v)@,
            old(v)@.no_duplicates(),
            forall|j: int| 0 <= j < k ==> v@[j] != i,
        decreases v@.len() - k,
    {
        if v[k] == i {
            proof {
                lemma_remove_idx_to_set(v@, k as int);
            }
            v.remove(k);
            return ;
        }
        k = k + 1;
    }
    proof {
        assert(!v@.to_set().contains(i));
        assert(v@.to_set() =~= v@.to_set().remove(i));
    }
}

/// Mark an input held, keeping the vector free of duplicates; a repeat is
/// ignored.
fn insert_input(v: &mut Vec<Input>, i: Input)
    requires
        old(v)@.no_duplicates(),
    ensures
        final(v)@.no_duplicates(),
        final(v)@.to_set() == old(v)@.to_set().insert(i),
{
    if !contains_input(v, i) {
        proof {
            lemma_push_to_set(v@, i);
        }
        v.push(i);
    } else {
        proof {
            assert(v@.to_set() =~= v@.to_set().insert(i));
        }
    }
}

/// The input state tracker: the inputs currently held, the raw events
/// queued since the last frame, and the last known pointer cell.
pub struct InputTracker {
    pub pressed: Vec<Input>,
    pub queue: Vec<RawEvent>,
    pub mouse_coord: Coord,
}

impl InputTracker {
    /// The held-input vector carries no duplicates.
    pub open spec fn wf(&self) -> bool {
        self.pressed@.no_duplicates()
    }

    /// A tracker with the pointer at the origin.
    pub fn new() -> (t: InputTracker)
        ensures
            t.wf(),
            t.pressed@.len() == 0,
            t.queue@.len() == 0,
            t.mouse_coord == (Coord { x: 0, y: 0 }),
    {
        Self::new_mouse(Coord::new(0, 0))
    }

    /// A tracker with the pointer at `mouse_location`.
    pub fn new_mouse(mouse_location: Coord) -> (t: InputTracker)
        ensures
            t.wf(),
            t.pressed@.len() == 0,
            t.queue@.len() == 0,
            t.mouse_coord == mouse_location,
    {
        InputTracker { pressed: Vec::new(), queue: Vec::new(), mouse_coord: mouse_location }
    }

    /// Queue one raw event for the next frame. Nothing else changes; events
    /// the environment cannot express as a `RawEvent` are dropped before
    /// ever reaching the tracker.
    pub fn register_input_event(&mut self, event: RawEvent)
        requires
            old(self).wf(),
        ensures
            final(self).wf(),
            final(self).queue@ == old(self).queue@.push(event),
            final(self).pressed@ == old(self).pressed@,
            final(self).mouse_coord == old(self).mouse_coord,
    {
        self.queue.push(event);
    }

    /// Drain the queued events in arrival order and return the frame's
    /// deduplicated semantic states plus the latest pointer cell.
    pub fn calculate_state(&mut self) -> (r: (Vec<InputState>, Coord))
        requires
            old(self).wf(),
        ensures
            final(self).wf(),
            r.0@.no_duplicates(),
            r.0@.to_set() == spec_frame_states(
                old(self).pressed@.to_set(),
                old(self).queue@,
                old(self).mouse_coord,
            ),
            r.1 == spec_drain(
                spec_frame_start(old(self).pressed@.to_set(), old(self).mouse_coord),
                old(self).queue@,
            ).mouse,
            final(self).pressed@.to_set() == spec_pressed_after(
                old(self).pressed@.to_set(),
                old(self).queue@,
                old(self).mouse_coord,
            ),
            final(self).queue@.len() == 0,
            final(self).mouse_coord == r.1,
    {
        let ghost m0 = spec_frame_start(old(self).pressed@.to_set(), old(self).mouse_coord);
        let mut result: Vec<InputState> = Vec::new();
        let mut still: Vec<Input> = Vec::new();
        let mut k: usize = 0;
        // still_active starts as a copy of the held set
        while k < self.pressed.len()
            invariant
                k <= self.pressed@.len(),
                self == old(self),
                still@ == self.pressed@.take(k as int),
            decreases self.pressed@.len() - k,
        {
            let i = self.pressed[k];
            proof {
                assert(self.pressed@.take(k as int).push(i) =~= self.pressed@.take(k as int + 1));
            }
            still.push(i);
            k = k + 1;
        }
        proof {
            assert(self.pressed@.take(self.pressed@.len() as int) =~= self.pressed@);
        }
        let n = self.queue.len();
        let mut q: usize = 0;
        proof {
            assert(old(self).queue@.skip(0) =~= old(self).queue@);
            assert(result@.to_set() =~= Set::<InputState>::empty());
        }
        while q < n
            invariant
                q <= n,
                n == old(self).queue@.len(),
                self.queue@ == old(self).queue@,
                self.pressed@.no_duplicates(),
                still@.no_duplicates(),
                result@.no_duplicates(),
                ({
                    let now = TrackerModel {
                        pressed: self.pressed@.to_set(),
                        still_active: still@.to_set(),
                        emitted: result@.to_set(),
                        mouse: self.mouse_coord,
                    };
                    spec_drain(m0, old(self).queue@) == spec_drain(
                        now,
                        old(self).queue@.skip(q as int),
                    )
                }),
            decreases n - q,
        {
            let ghost pre = TrackerModel {
                pressed: self.pressed@.to_set(),
                still_active: still@.to_set(),
                emitted: result@.to_set(),
                mouse: self.mouse_coord,
            };
            let ev = self.queue[q];
            match ev {
                RawEvent::KeyPress(key) => {
                    let i = Input::Key(key);
                    if !contains_input(&self.pressed, i) {
                        insert_state(&mut result, InputState::Press(i));
                        insert_state(&mut result, InputState::Active(i));
                        insert_input(&mut self.pressed, i);
                    }
                },
                RawEvent::KeyRelease(key) => {
                    let i = Input::Key(key);
                    insert_state(&mut result, InputState::Release(i));
                    remove_input(&mut self.pressed, i);
                    remove_input(&mut still, i);
                },
                RawEvent::MouseDown(b, c) => {
                    self.mouse_coord = c;
                    let i = b.as_input();
                    if !contains_input(&self.pressed, i) {
                        insert_state(&mut result, InputState::Press(i));
                        insert_state(&mut result, InputState::Active(i));
                        insert_input(&mut self.pressed, i);
                    }
                },
                RawEvent::MouseUp(b, c) => {
                    self.mouse_coord = c;
                    let i = b.as_input();
                    insert_state(&mut result, InputState::Release(i));
                    remove_input(&mut self.pressed, i);
                    remove_input(&mut still, i);
                },
                RawEvent::Scroll(d, c) => {
                    self.mouse_coord = c;
                    insert_state(&mut result, InputState::Press(d.as_input()));
                },
                RawEvent::MouseMoved(c) => {
                    self.mouse_coord = c;
                },
            }
            proof {
                let now = TrackerModel {
                    pressed: self.pressed@.to_set(),
                    still_active: still@.to_set(),
                    emitted: result@.to_set(),
                    mouse: self.mouse_coord,
                };
                assert(now == spec_track_event(pre, old(self).queue@.skip(q as int)[0]));
                assert(old(self).queue@.skip(q as int).skip(1) =~= old(self).queue@.skip(
                    q as int + 1,
                ));
            }
            q = q + 1;
        }
        proof {
            assert(old(self).queue@.skip(n as int) =~= Seq::<RawEvent>::empty());
        }
        self.queue = Vec::new();
        // every input still counted as held emits Active
        let ghost mf = spec_drain(m0, old(self).queue@);
        proof {
            assert(mf == TrackerModel {
                pressed: self.pressed@.to_set(),
                still_active: still@.to_set(),
                emitted: result@.to_set(),
                mouse: self.mouse_coord,
            });
            assert(still@.take(0).to_set() =~= Set::<Input>::empty());
            assert(result@.to_set() =~= mf.emitted.union(
                spec_active_states(still@.take(0).to_set()),
            ));
        }
        let mut k2: usize = 0;
        while k2 < still.len()
            invariant
                k2 <= still@.len(),
                still@.to_set() == mf.still_active,
                still@.no_duplicates(),
                result@.no_duplicates(),
                result@.to_set() == mf.emitted.union(
                    spec_active_states(still@.take(k2 as int).to_set()),
                ),
            decreases still@.len() - k2,
        {
            let i = still[k2];
            insert_state(&mut result, InputState::Active(i));
            proof {
                assert(still@.take(k2 as int).push(i) =~= still@.take(k2 as int + 1));
                lemma_push_to_set(still@.take(k2 as int), i);
                assert(result@.to_set() =~= mf.emitted.union(
                    spec_active_states(still@.take(k2 as int + 1).to_set()),
                ));
            }
            k2 = k2 + 1;
        }
        proof {
            assert(still@.take(still@.len() as int) =~= still@);
        }
        let mouse = self.mouse_coord;
        (result, mouse)
    }
}

/// A press followed at once by a release of the same input, within one
/// frame, yields exactly `Press`, `Active` and `Release` for it, beside the
/// `Active` states of whatever else was held.
pub proof fn lemma_press_then_release(pressed: Set<Input>, k: crate::input::Key, mouse: Coord)
    requires
        !pressed.contains(Input::Key(k)),
    ensures
        ({
            let i = Input::Key(k);
            let evs = seq![RawEvent::KeyPress(k), RawEvent::KeyRelease(k)];
            &&& spec_frame_states(pressed, evs, mouse) =~= spec_active_states(pressed).union(
                set![
                    InputState::Press(i),
                    InputState::Active(i),
                    InputState::Release(i),
                ],
            )
            &&& spec_pressed_after(pressed, evs, mouse) =~= pressed
        }),
{
    reveal_with_fuel(spec_drain, 4);
    let i = Input::Key(k);
    let evs = seq![RawEvent::KeyPress(k), RawEvent::KeyRelease(k)];
    let m0 = spec_frame_start(pressed, mouse);
    let m1 = spec_track_event(m0, evs[0]);
    let m2 = spec_track_event(m1, evs[1]);
    assert(evs.skip(1) =~= seq![RawEvent::KeyRelease(k)]);
    assert(evs.skip(1).skip(1) =~= Seq::<RawEvent>::empty());
    assert(spec_drain(m0, evs) == m2);
    assert(m2.pressed =~= pressed);
    assert(m2.still_active =~= pressed.remove(i));
    assert(spec_active_states(pressed.remove(i)).union(m2.emitted) =~= spec_active_states(
        pressed,
    ).union(
        set![
            InputState::Press(i),
            InputState::Active(i),
            InputState::Release(i),
        ],
    ));
}

/// A release of a held input followed at once by a re-press, within one
/// frame, also yields exactly `Press`, `Active` and `Release` for it, even
/// though the input began the frame held.
pub proof fn lemma_release_then_repress(pressed: Set<Input>, k: crate::input::Key, mouse: Coord)
    requires
        pressed.contains(Input::Key(k)),
    ensures
        ({
            let i = Input::Key(k);
            let evs = seq![RawEvent::KeyRelease(k), RawEvent::KeyPress(k)];
            &&& spec_frame_states(pressed, evs, mouse) =~= spec_active_states(
                pressed.remove(i),
            ).union(
                set![
                    InputState::Press(i),
                    InputState::Active(i),
                    InputState::Release(i),
                ],
            )
            &&& spec_pressed_after(pressed, evs, mouse) =~= pressed
        }),
{
    reveal_with_fuel(spec_drain, 4);
    let i = Input::Key(k);
    let evs = seq![RawEvent::KeyRelease(k), RawEvent::KeyPress(k)];
    let m0 = spec_frame_start(pressed, mouse);
    let m1 = spec_track_event(m0, evs[0]);
    let m2 = spec_track_event(m1, evs[1]);
    assert(evs.skip(1) =~= seq![RawEvent::KeyPress(k)]);
    assert(evs.skip(1).skip(1) =~= Seq::<RawEvent>::empty());
    assert(spec_drain(m0, evs) == m2);
    assert(m2.pressed =~= pressed);
    assert(m2.still_active =~= pressed.remove(i));
    assert(m2.emitted.union(spec_active_states(pressed.remove(i))) =~= spec_active_states(
        pressed.remove(i),
    ).union(
        set![
            InputState::Press(i),
            InputState::Active(i),
            InputState::Release(i),
        ],
    ));
}

/// A frame with no new events yields exactly the `Active` states of the
/// inputs held, every frame, until they are released; an input held alone
/// yields exactly its own `Active` state.
pub proof fn lemma_held_idle_frame(pressed: Set<Input>, i: Input, mouse: Coord)
    ensures
        spec_frame_states(pressed, seq![], mouse) =~= spec_active_states(pressed),
        spec_pressed_after(pressed, seq![], mouse) == pressed,
        spec_frame_states(set![i], seq![], mouse) =~= set![InputState::Active(i)],
{
    assert(spec_frame_states(pressed, seq![], mouse) =~= spec_active_states(pressed));
    assert(spec_active_states(set![i]) =~= set![InputState::Active(i)]);
    assert(spec_frame_states(set![i], seq![], mouse) =~= set![InputState::Active(i)]);
}

/// A repeated press of an input the tracker already holds changes nothing:
/// key-repeat never duplicates `Press` or `Active` in a frame's output.
pub proof fn lemma_key_repeat_suppressed(m: TrackerModel, k: crate::input::Key, evs: Seq<RawEvent>)
    requires
        m.pressed.contains(Input::Key(k)),
    ensures
        spec_drain(m, seq![RawEvent::KeyPress(k)] + evs) == spec_drain(m, evs),
{
    let all = seq![RawEvent::KeyPress(k)] + evs;
    assert(all[0] == RawEvent::KeyPress(k));
    assert(spec_track_event(m, all[0]) == m);
    assert(all.skip(1) =~= evs);
}

/// After a release with no later re-press, the input is no longer held, and
/// the next frame with no new events returns the empty set.
pub proof fn lemma_release_then_empty(k: crate::input::Key, mouse: Coord)
    ensures
        ({
            let i = Input::Key(k);
            let held = spec_pressed_after(set![i], seq![RawEvent::KeyRelease(k)], mouse);
            &&& held =~= Set::<Input>::empty()
            &&& spec_frame_states(held, seq![], mouse) =~= Set::<InputState>::empty()
        }),
{
    reveal_with_fuel(spec_drain, 4);
    let i = Input::Key(k);
    let evs = seq![RawEvent::KeyRelease(k)];
    let m0 = spec_frame_start(set![i], mouse);
    let m1 = spec_track_event(m0, evs[0]);
    assert(evs.skip(1) =~= Seq::<RawEvent>::empty());
    assert(spec_drain(m0, evs) == m1);
    let held = spec_pressed_after(set![i], evs, mouse);
    assert(held =~= Set::<Input>::empty());
    assert(spec_active_states(held) =~= Set::<InputState>::empty());
    assert(spec_frame_states(held, seq![], mouse) =~= Set::<InputState>::empty());
}

} // verus!
