//! Named sprite animation clips and the playback clock that drives them.
//!
//! An [`Animator`] owns a table of named [`Animation`] clips, a selector for
//! the current clip, the index of the frame being shown and the time spent in
//! that frame. Times are in milliseconds; atlas coordinates in pixels.

use vstd::prelude::*;

verus! {

/// Atlas coordinates and sizes stay below this bound so that frame
/// arithmetic cannot overflow.
pub const MAX_SPRITE_DIM: u32 = 0x10000;

/// Frame counts stay below this bound so that frame arithmetic cannot
/// overflow.
pub const MAX_FRAME_COUNT: usize = 0x10000;

/// A named looping clip: a row of equally sized frames in the sprite atlas,
/// shown for a fixed duration each.
#[derive(Clone, Copy, Debug, PartialEq, Eq, Structural)]
pub struct Animation {
    pub frame_count: usize,
    /// How long one frame is shown, in milliseconds.
    pub frame_duration: u64,
    /// Atlas x coordinate of the clip's first frame, in pixels.
    pub sprite_x: u32,
    /// Atlas y coordinate of the clip's row, in pixels.
    pub sprite_y: u32,
    /// Width of one frame, in pixels.
    pub sprite_width: u32,
    /// Height of one frame, in pixels.
    pub sprite_height: u32,
}

impl Animation {
    /// Bounds under which playback arithmetic cannot overflow.
    pub open spec fn fits(self) -> bool {
        0 < self.frame_count <= MAX_FRAME_COUNT && self.sprite_width <= MAX_SPRITE_DIM
            && self.sprite_height <= MAX_SPRITE_DIM
    }
}

/// The source rectangle and destination size of one frame, ready for a draw
/// call: the frame's sub-rectangle of the atlas, the doubled on-screen size,
/// and whether to mirror horizontally.
#[derive(Clone, Copy, Debug, PartialEq, Eq, Structural)]
pub struct FrameDraw {
    pub source_x: u64,
    pub source_y: u32,
    pub source_width: u32,
    pub source_height: u32,
    pub dest_width: u32,
    pub dest_height: u32,
    pub flip_x: bool,
}

/// The frame index after one clock advance of `dt` milliseconds: when the
/// accumulated time reaches the frame duration the frame advances by one,
/// wrapping modulo the frame count.
pub open spec fn next_frame(frame: nat, elapsed: nat, dt: nat, duration: nat, count: nat) -> nat
    recommends
        count > 0,
{
    if elapsed + dt >= duration {
        (frame + 1) % count
    } else {
        frame
    }
}

/// The accumulated time after one clock advance of `dt` milliseconds: reset
/// to zero when it reaches the frame duration.
pub open spec fn next_elapsed(elapsed: nat, dt: nat, duration: nat) -> nat {
    if elapsed + dt >= duration {
        0
    } else {
        elapsed + dt
    }
}

/// A named-clip table and playback clock. The table maps names to clips
/// (unique keys); the selector names the clip being played.
pub struct Animator {
    animations: Vec<(String, Animation)>,
    current_animation: String,
    current_frame: usize,
    elapsed_time: u64,
}

/// Whether the table registers a clip of this name.
pub open spec fn table_has_name(t: Seq<(String, Animation)>, name: Seq<char>) -> bool {
    exists|i: int| 0 <= i < t.len() && t[i].0@ == name
}

/// The table index of the clip of this name.
pub open spec fn table_index(t: Seq<(String, Animation)>, name: Seq<char>) -> int {
    choose|i: int| 0 <= i < t.len() && t[i].0@ == name
}

/// The clip the table registers under this name.
pub open spec fn table_anim(t: Seq<(String, Animation)>, name: Seq<char>) -> Animation {
    t[table_index(t, name)].1
}

/// Table well-formedness: clip names are unique and every registered clip is
/// within the playback bounds.
pub open spec fn table_wf(t: Seq<(String, Animation)>) -> bool {
    &&& forall|i: int, j: int|
        #![trigger t[i], t[j]]
        0 <= i < j < t.len() ==> t[i].0@ != t[j].0@
    &&& forall|i: int| 0 <= i < t.len() ==> (#[trigger] t[i]).1.fits()
}

proof fn lemma_table_index_is(t: Seq<(String, Animation)>, name: Seq<char>, i: int)
    requires
        table_wf(t),
        0 <= i < t.len(),
        t[i].0@ == name,
    ensures
        table_index(t, name) == i,
        table_has_name(t, name),
{
    assert(table_has_name(t, name));
    let j = table_index(t, name);
    assert(0 <= j < t.len() && t[j].0@ == name);
    if i < j {
        assert(t[i].0@ != t[j].0@);
    } else if j < i {
        assert(t[j].0@ != t[i].0@);
    }
}

impl Animator {
    /// The registered table, as a sequence of name/clip pairs in
    /// registration order.
    pub closed spec fn table(self) -> Seq<(String, Animation)> {
        self.animations@
    }

    /// Whether a clip of this name is registered.
    pub open spec fn has_name(self, name: Seq<char>) -> bool {
        table_has_name(self.table(), name)
    }

    /// The registered clip of this name.
    pub open spec fn spec_anim(self, name: Seq<char>) -> Animation {
        table_anim(self.table(), name)
    }

    /// The name of the clip being played.
    pub closed spec fn current(self) -> Seq<char> {
        self.current_animation@
    }

    /// The index of the frame being shown.
    pub closed spec fn frame(self) -> nat {
        self.current_frame as nat
    }

    /// The time spent in the current frame, in milliseconds.
    pub closed spec fn elapsed(self) -> nat {
        self.elapsed_time as nat
    }

    /// Well-formedness: the table is well-formed and the frame index is
    /// bounded.
    pub open spec fn wf(self) -> bool {
        table_wf(self.table()) && self.frame() <= MAX_FRAME_COUNT
    }

    /// An empty table: nothing registered, nothing selected, clock at zero.
    pub fn new() -> (a: Animator)
        ensures
            a.wf(),
            a.table().len() == 0,
            a.current() == Seq::<char>::empty(),
            a.frame() == 0,
            a.elapsed() == 0,
    {
        Animator {
            animations: Vec::new(),
            current_animation: String::new(),
            current_frame: 0,
            elapsed_time: 0,
        }
    }

    /// Finds the table index of a name, if registered.
    fn find_index(&self, name: &str) -> (r: Option<usize>)
        requires
            self.wf(),
        ensures
            match r {
                Some(i) => self.has_name(name@) && i == table_index(self.table(), name@),
                None => !self.has_name(name@),
            },
    {
        let n = self.animations.len();
        let mut i: usize = 0;
        while i < n
            invariant
                self.wf(),
                n == self.table().len(),
                0 <= i <= n,
                forall|k: int| 0 <= k < i ==> (#[trigger] self.table()[k]).0@ != name@,
            decreases n - i,
        {
            let pair = &self.animations[i];
            if str_eq(pair.0.as_str(), name) {
                proof {
                    lemma_table_index_is(self.table(), name@, i as int);
                }
                return Some(i);
            }
            i = i + 1;
        }
        None
    }

    /// Registers or overwrites the named clip. Overwriting the clip that is
    /// currently playing does not reset playback: only a name switch does.
    pub fn add_animation(&mut self, name: &str, animation: Animation)
        requires
            old(self).wf(),
            animation.fits(),
        ensures
            final(self).wf(),
            final(self).has_name(name@),
            final(self).spec_anim(name@) == animation,
            forall|n: Seq<char>|
                n != name@ ==> #[trigger] final(self).has_name(n) == old(self).has_name(n),
            forall|n: Seq<char>|
                n != name@ && old(self).has_name(n) ==> #[trigger] final(self).spec_anim(n) == old(
                    self,
                ).spec_anim(n),
            final(self).current() == old(self).current(),
            final(self).frame() == old(self).frame(),
            final(self).elapsed() == old(self).elapsed(),
    {
        let ghost before = *old(self);
        let found = self.find_index(name);
        match found {
            Some(i) => {
                let pair = vstd::std_specs::vec::vec_index_mut(&mut self.animations, i);
                pair.1 = animation;
                proof {
                    assert(self.table() =~= before.table().update(
                        i as int,
                        (before.table()[i as int].0, animation),
                    ));
                    assert(self.wf());
                    lemma_table_index_is(self.table(), name@, i as int);
                    assert forall|n: Seq<char>|
                        n != name@ implies #[trigger] self.has_name(n) == before.has_name(n) by {
                        if before.has_name(n) {
                            let k = choose|k: int|
                                0 <= k < before.table().len() && before.table()[k].0@ == n;
                            assert(self.table()[k].0@ == n);
                        }
                        if self.has_name(n) {
                            let k = choose|k: int|
                                0 <= k < self.table().len() && self.table()[k].0@ == n;
                            assert(before.table()[k].0@ == n);
                        }
                    }
                    assert forall|n: Seq<char>|
                        n != name@ && before.has_name(n) implies #[trigger] self.spec_anim(n)
                        == before.spec_anim(n) by {
                        let k = table_index(before.table(), n);
                        assert(before.table()[k].0@ == n);
                        assert(self.table()[k].0@ == n);
                        lemma_table_index_is(self.table(), n, k);
                    }
                }
            },
            None => {
                self.animations.push((name.to_owned(), animation));
                proof {
                    let len = before.table().len() as int;
                    assert(self.table()[len].0@ == name@);
                    assert(self.wf());
                    lemma_table_index_is(self.table(), name@, len);
                    assert forall|n: Seq<char>|
                        n != name@ implies #[trigger] self.has_name(n) == before.has_name(n) by {
                        if before.has_name(n) {
                            let k = choose|k: int|
                                0 <= k < before.table().len() && before.table()[k].0@ == n;
                            assert(self.table()[k].0@ == n);
                        }
                        if self.has_name(n) {
                            let k = choose|k: int|
                                0 <= k < self.table().len() && self.table()[k].0@ == n;
                            assert(before.table()[k].0@ == n);
                        }
                    }
                    assert forall|n: Seq<char>|
                        n != name@ && before.has_name(n) implies #[trigger] self.spec_anim(n)
                        == before.spec_anim(n) by {
                        let k = table_index(before.table(), n);
                        assert(before.table()[k].0@ == n);
                        assert(self.table()[k].0@ == n);
                        lemma_table_index_is(self.table(), n, k);
                    }
                }
            },
        }
    }

    /// Switches playback to the named clip. Re-selecting the current name is
    /// a no-op; switching to a different registered name resets the frame
    /// index and the clock; an unregistered name changes nothing, and the
    /// returned flag tells the caller to report the unknown name.
    pub fn set_animation(&mut self, name: &str) -> (known: bool)
        requires
            old(self).wf(),
        ensures
            final(self).wf(),
            known == old(self).has_name(name@),
            !known ==> *final(self) == *old(self),
            known && name@ == old(self).current() ==> *final(self) == *old(self),
            known && name@ != old(self).current() ==> {
                &&& final(self).current() == name@
                &&& final(self).frame() == 0
                &&& final(self).elapsed() == 0
                &&& final(self).table() == old(self).table()
            },
    {
        let found = self.find_index(name);
        match found {
            Some(_i) => {
                if !str_eq(self.current_animation.as_str(), name) {
                    self.current_animation = name.to_owned();
                    self.current_frame = 0;
                    self.elapsed_time = 0;
                }
                true
            },
            None => false,
        }
    }

    /// Advances the playback clock by `delta_time` milliseconds. When the
    /// accumulated time reaches the current clip's frame duration, the clock
    /// resets and the frame index advances by one, wrapping modulo the frame
    /// count; a selector that names no registered clip leaves everything
    /// unchanged.
    pub fn update(&mut self, delta_time: u64)
        requires
            old(self).wf(),
            old(self).elapsed() + delta_time <= u64::MAX,
        ensures
            final(self).wf(),
            final(self).table() == old(self).table(),
            final(self).current() == old(self).current(),
            !old(self).has_name(old(self).current()) ==> *final(self) == *old(self),
            old(self).has_name(old(self).current()) ==> {
                let a = old(self).spec_anim(old(self).current());
                &&& final(self).frame() == next_frame(
                    old(self).frame(),
                    old(self).elapsed(),
                    delta_time as nat,
                    a.frame_duration as nat,
                    a.frame_count as nat,
                )
                &&& final(self).elapsed() == next_elapsed(
                    old(self).elapsed(),
                    delta_time as nat,
                    a.frame_duration as nat,
                )
            },
    {
        let found = self.find_index(self.current_animation.as_str());
        match found {
            Some(i) => {
                let a = self.animations[i].1;
                let e = self.elapsed_time + delta_time;
                if e >= a.frame_duration {
                    self.elapsed_time = 0;
                    self.current_frame = (self.current_frame + 1) % a.frame_count;
                } else {
                    self.elapsed_time = e;
                }
            },
            None => {},
        }
    }

    /// The draw data for the frame being shown: the source rectangle is the
    /// `current_frame`-th cell of the current clip's atlas row, the
    /// destination size is doubled, and `flip_x` is passed through. Nothing
    /// to draw when the selector names no registered clip.
    pub fn animate(&self, flip_x: bool) -> (r: Option<FrameDraw>)
        requires
            self.wf(),
        ensures
            r is Some <==> self.has_name(self.current()),
            self.has_name(self.current()) ==> {
                let a = self.spec_anim(self.current());
                r == Some(
                    FrameDraw {
                        source_x: (self.frame() * a.sprite_width) as u64,
                        source_y: a.sprite_y,
                        source_width: a.sprite_width,
                        source_height: a.sprite_height,
                        dest_width: (2 * a.sprite_width) as u32,
                        dest_height: (2 * a.sprite_height) as u32,
                        flip_x: flip_x,
                    },
                )
            },
    {
        let found = self.find_index(self.current_animation.as_str());
        match found {
            Some(i) => {
                let a = self.animations[i].1;
                proof {
                    assert(self.table()[i as int].1.fits());
                    assert((self.current_frame as int) * (a.sprite_width as int) <= 0x10000
                        * 0x10000) by (nonlinear_arith)
                        requires
                            self.current_frame <= 0x10000,
                            a.sprite_width <= 0x10000,
                    ;
                }
                let frame_x: u64 = (self.current_frame as u64) * (a.sprite_width as u64);
                Some(
                    FrameDraw {
                        source_x: frame_x,
                        source_y: a.sprite_y,
                        source_width: a.sprite_width,
                        source_height: a.sprite_height,
                        dest_width: 2 * a.sprite_width,
                        dest_height: 2 * a.sprite_height,
                        flip_x,
                    },
                )
            },
            None => None,
        }
    }

    /// How many clips are registered.
    pub fn animation_count(&self) -> (n: usize)
        ensures
            n == self.table().len(),
    {
        self.animations.len()
    }

    /// The registered clip of this name, if any.
    pub fn get_animation(&self, name: &str) -> (r: Option<Animation>)
        requires
            self.wf(),
        ensures
            r is Some <==> self.has_name(name@),
            self.has_name(name@) ==> r == Some(self.spec_anim(name@)),
    {
        let found = self.find_index(name);
        match found {
            Some(i) => Some(self.animations[i].1),
            None => None,
        }
    }

    /// The name of the clip being played.
    pub fn current_name(&self) -> (n: String)
        ensures
            n@ == self.current(),
    {
        self.current_animation.clone()
    }

    /// The index of the frame being shown.
    pub fn frame_index(&self) -> (f: usize)
        ensures
            f == self.frame(),
    {
        self.current_frame
    }

    /// The time spent in the current frame so far, in milliseconds.
    pub fn elapsed_ms(&self) -> (e: u64)
        ensures
            e == self.elapsed(),
    {
        self.elapsed_time
    }
}

/// The playback state — frame index and accumulated time — after a sequence
/// of clock advances, one advance per element of `deltas`.
pub open spec fn run_ticks(
    frame: nat,
    elapsed: nat,
    deltas: Seq<u64>,
    duration: nat,
    count: nat,
) -> (nat, nat)
    decreases deltas.len(),
{
    if deltas.len() == 0 {
        (frame, elapsed)
    } else {
        run_ticks(
            next_frame(frame, elapsed, deltas[0] as nat, duration, count),
            next_elapsed(elapsed, deltas[0] as nat, duration),
            deltas.drop_first(),
            duration,
            count,
        )
    }
}

/// The sum of a sequence of clock advances, in milliseconds.
pub open spec fn total_time(deltas: Seq<u64>) -> nat
    decreases deltas.len(),
{
    if deltas.len() == 0 {
        0
    } else {
        deltas[0] as nat + total_time(deltas.drop_first())
    }
}

/// Whether every advance lands on or before the current frame's boundary.
/// The clock resets to zero on a frame advance, so an advance that overshoots
/// the boundary discards the overshoot; these are the runs in which no time
/// is discarded.
pub open spec fn lands_on_frames(elapsed: nat, deltas: Seq<u64>, duration: nat) -> bool
    decreases deltas.len(),
{
    if deltas.len() == 0 {
        true
    } else {
        elapsed + deltas[0] <= duration && lands_on_frames(
            next_elapsed(elapsed, deltas[0] as nat, duration),
            deltas.drop_first(),
            duration,
        )
    }
}

/// Law: over any sequence of clock advances that sums to `T`, each landing on
/// or before a frame boundary, the frame index advances exactly
/// `T / duration` times — the accumulator neither loses nor double-counts
/// time — wrapping modulo the frame count, and the clock ends at
/// `T % duration`. (An advance that overshoots a boundary discards the
/// overshoot, so the count would be lower on such a run.)
pub proof fn lemma_frame_advances(
    frame: nat,
    elapsed: nat,
    deltas: Seq<u64>,
    duration: nat,
    count: nat,
)
    requires
        0 < duration,
        0 < count,
        frame < count,
        elapsed < duration,
        lands_on_frames(elapsed, deltas, duration),
    ensures
        ({
            let t = (elapsed + total_time(deltas)) as int;
            let r = run_ticks(frame, elapsed, deltas, duration, count);
            &&& r.0 == (frame as int + t / duration as int) % count as int
            &&& r.1 == t % duration as int
        }),
    decreases deltas.len(),
{
    if deltas.len() == 0 {
        vstd::arithmetic::div_mod::lemma_basic_div(elapsed as int, duration as int);
        vstd::arithmetic::div_mod::lemma_small_mod(elapsed, duration);
        vstd::arithmetic::div_mod::lemma_small_mod(frame, count);
    } else {
        let d0 = deltas[0] as nat;
        let rest = deltas.drop_first();
        let t_rest = total_time(rest) as int;
        if elapsed + d0 < duration {
            lemma_frame_advances(frame, elapsed + d0, rest, duration, count);
        } else {
            // the advance lands exactly on the boundary: elapsed + d0 == duration
            let f1: int = (frame as int + 1) % count as int;
            vstd::arithmetic::div_mod::lemma_mod_division_less_than_divisor(
                frame as int + 1,
                count as int,
            );
            lemma_frame_advances(f1 as nat, 0, rest, duration, count);
            // the quotient gains exactly one advance
            vstd::arithmetic::div_mod::lemma_div_plus_one(t_rest, duration as int);
            // and the wrap commutes with the later advances
            vstd::arithmetic::div_mod::lemma_add_mod_noop_right(
                f1,
                t_rest / duration as int,
                count as int,
            );
            vstd::arithmetic::div_mod::lemma_add_mod_noop(
                frame as int + 1,
                t_rest / duration as int,
                count as int,
            );
            vstd::arithmetic::div_mod::lemma_mod_twice(frame as int + 1, count as int);
            vstd::arithmetic::div_mod::lemma_mod_add_multiples_vanish(t_rest, duration as int);
        }
    }
}

/// Relies on `str`'s `PartialEq`: two string slices compare equal exactly
/// when their characters do.
#[verifier::external_body]
fn str_eq(a: &str, b: &str) -> (r: bool)
    ensures
        r == (a@ == b@),
{
    a == b
}

} // verus!
