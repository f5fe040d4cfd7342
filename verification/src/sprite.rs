//! Animation clips, sprite instances, and the arithmetic of playback.
//!
//! Lengths are whole numbers of micro-units (a millionth of a world unit),
//! times are whole microseconds. Playback is computed in closed form: the
//! number of frame boundaries that a span of time crosses, and the frame that
//! this many single steps lead to.

use vstd::arithmetic::div_mod::*;
use vstd::prelude::*;

verus! {

/// Template of an animation, shared by every sprite that plays it.
#[derive(Debug)]
pub struct ClipDef {
    pub name: String,
    /// Number of frames; a clip of no frame plays like a clip of one.
    pub frame_count: u32,
    /// Time each frame is shown; 0 means the clip never advances by itself.
    pub frame_duration: u64,
    /// Whether playback starts over after the last frame.
    pub looping: bool,
    /// Whether playback runs from the last frame to the first by default.
    pub reversed: bool,
    /// Size of a frame, given to every sprite created on the clip.
    pub width: i64,
    pub height: i64,
}

/// Mathematical picture of a clip.
pub struct Clip {
    pub name: Seq<char>,
    pub frame_count: u32,
    pub frame_duration: u64,
    pub looping: bool,
    pub reversed: bool,
    pub width: i64,
    pub height: i64,
}

impl View for ClipDef {
    type V = Clip;

    open spec fn view(&self) -> Clip {
        Clip {
            name: self.name@,
            frame_count: self.frame_count,
            frame_duration: self.frame_duration,
            looping: self.looping,
            reversed: self.reversed,
            width: self.width,
            height: self.height,
        }
    }
}

/// Whether a sprite follows its clip's loop flag or overrides it.
#[derive(Clone, Copy, Debug, PartialEq, Eq, Structural)]
pub enum LoopMode {
    ClipDefault,
    Loop,
    Once,
}

/// One sprite: where it is drawn and where its animation stands.
#[derive(Clone, Copy, Debug, PartialEq, Eq, Structural)]
pub struct SpriteInstance {
    pub pos_x: i64,
    pub pos_y: i64,
    pub width: i64,
    pub height: i64,
    /// Draw-order key; no range is enforced.
    pub depth: i64,
    /// Index of the current clip in the pool's clip table.
    pub clip: usize,
    /// Index of the frame shown.
    pub frame: u32,
    /// Time the current frame has been shown.
    pub elapsed: u64,
    pub flipped_x: bool,
    pub flipped_y: bool,
    pub paused: bool,
    /// Plays against the clip's default direction.
    pub reversed: bool,
    pub looping: LoopMode,
}

/// Index of the last frame of a clip with `frame_count` frames.
pub open spec fn last_frame(frame_count: u32) -> int {
    if frame_count == 0 {
        0
    } else {
        frame_count - 1
    }
}

/// How many frame boundaries lie behind a frame that has been shown for
/// `total`: the frame changes each time the time shown exceeds `duration`.
pub open spec fn crossings(total: int, duration: int) -> int {
    if total <= 0 {
        0
    } else {
        (total - 1) / duration
    }
}

/// The frame reached from `frame` by `steps` single steps in a clip whose
/// last frame is `last`. A frame beyond `last` counts as `last`. A looping
/// clip wraps around; any other clip stops at its final frame.
pub open spec fn frame_after(
    frame: int,
    last: int,
    steps: int,
    looping: bool,
    backwards: bool,
) -> int {
    let from = if frame < last {
        frame
    } else {
        last
    };
    if steps <= 0 {
        frame
    } else if looping {
        if backwards {
            (from - steps) % (last + 1)
        } else {
            (from + steps) % (last + 1)
        }
    } else if backwards {
        if steps <= from {
            from - steps
        } else {
            0
        }
    } else {
        if from + steps <= last {
            from + steps
        } else {
            last
        }
    }
}

/// Whether `steps` single steps from `frame` run past the final frame of a
/// clip that does not loop.
pub open spec fn runs_out(frame: int, last: int, steps: int, looping: bool, backwards: bool) -> bool {
    let from = if frame < last {
        frame
    } else {
        last
    };
    steps > 0 && !looping && (if backwards {
        steps > from
    } else {
        from + steps > last
    })
}

impl SpriteInstance {
    /// The sprite that a pool creates on clip number `clip`: first frame, no
    /// time elapsed, not flipped, paused or reversed, the clip's frame size.
    pub open spec fn fresh(clip: int, def: Clip, position: (i64, i64), depth: i64) -> SpriteInstance {
        SpriteInstance {
            pos_x: position.0,
            pos_y: position.1,
            width: def.width,
            height: def.height,
            depth,
            clip: clip as usize,
            frame: 0,
            elapsed: 0,
            flipped_x: false,
            flipped_y: false,
            paused: false,
            reversed: false,
            looping: LoopMode::ClipDefault,
        }
    }

    /// Whether the sprite starts over at the end of `clip`.
    pub open spec fn loops(self, clip: Clip) -> bool {
        match self.looping {
            LoopMode::ClipDefault => clip.looping,
            LoopMode::Loop => true,
            LoopMode::Once => false,
        }
    }

    /// Whether the sprite plays `clip` from the last frame to the first.
    pub open spec fn backwards(self, clip: Clip) -> bool {
        clip.reversed != self.reversed
    }

    /// The sprite after `delta` of time on `clip`.
    ///
    /// A paused sprite stays as it is. On a clip of frame duration 0 only the
    /// elapsed time grows, up to the largest value it can hold. Otherwise the
    /// elapsed time grows by `delta`, each frame boundary crossed takes one
    /// frame duration off it and moves the frame by one step, and a sprite
    /// that runs past the final frame of a clip that does not loop stays on
    /// that frame and is paused.
    pub open spec fn advanced(self, clip: Clip, delta: u64) -> SpriteInstance {
        let total = self.elapsed + delta;
        let steps = crossings(total, clip.frame_duration as int);
        let last = last_frame(clip.frame_count);
        if self.paused {
            self
        } else if clip.frame_duration == 0 {
            SpriteInstance {
                elapsed: if total > u64::MAX {
                    u64::MAX
                } else {
                    total as u64
                },
                ..self
            }
        } else {
            SpriteInstance {
                elapsed: (total - steps * clip.frame_duration) as u64,
                frame: frame_after(
                    self.frame as int,
                    last,
                    steps,
                    self.loops(clip),
                    self.backwards(clip),
                ) as u32,
                paused: runs_out(
                    self.frame as int,
                    last,
                    steps,
                    self.loops(clip),
                    self.backwards(clip),
                ),
                ..self
            }
        }
    }

    /// The sprite after a request to play clip number `clip`: unchanged when
    /// it plays that clip already, else on the first frame of the new clip
    /// with no time elapsed and every flag kept.
    pub open spec fn switched(self, clip: int) -> SpriteInstance {
        if self.clip == clip {
            self
        } else {
            SpriteInstance { clip: clip as usize, frame: 0, elapsed: 0, ..self }
        }
    }

    /// A new sprite on clip number `clip`, whose template is `def`.
    pub fn new(clip: usize, def: &ClipDef, position: (i64, i64), depth: i64) -> (s: SpriteInstance)
        ensures
            s == Self::fresh(clip as int, def@, position, depth),
    {
        SpriteInstance {
            pos_x: position.0,
            pos_y: position.1,
            width: def.width,
            height: def.height,
            depth,
            clip,
            frame: 0,
            elapsed: 0,
            flipped_x: false,
            flipped_y: false,
            paused: false,
            reversed: false,
            looping: LoopMode::ClipDefault,
        }
    }

    /// Makes the sprite play clip number `clip`. Asking for the clip that
    /// plays already changes nothing.
    pub fn switch_clip(&mut self, clip: usize)
        ensures
            *final(self) == old(self).switched(clip as int),
    {
        if self.clip != clip {
            self.clip = clip;
            self.frame = 0;
            self.elapsed = 0;
        }
    }

    /// Lets `delta` of time pass for the sprite, which plays `clip`.
    pub fn advance(&mut self, clip: &ClipDef, delta: u64)
        ensures
            *final(self) == old(self).advanced(clip@, delta),
    {
        if self.paused {
            return ;
        }
        let total: u128 = self.elapsed as u128 + delta as u128;
        let d: u128 = clip.frame_duration as u128;
        if d == 0 {
            self.elapsed = if total > u64::MAX as u128 {
                u64::MAX
            } else {
                total as u64
            };
            return ;
        }
        if total <= d {
            proof {
                if total > 0 {
                    lemma_fundamental_div_mod_converse(total as int - 1, d as int, 0, total as int - 1);
                }
            }
            self.elapsed = total as u64;
            return ;
        }
        let steps: u128 = (total - 1) / d;
        proof {
            lemma_steps_bounds(total as int, d as int);
        }
        let rest: u128 = total - steps * d;
        let last: u32 = if clip.frame_count == 0 {
            0
        } else {
            clip.frame_count - 1
        };
        let from: u32 = if self.frame < last {
            self.frame
        } else {
            last
        };
        let n: u128 = last as u128 + 1;
        let looping: bool = match self.looping {
            LoopMode::ClipDefault => clip.looping,
            LoopMode::Loop => true,
            LoopMode::Once => false,
        };
        let backwards: bool = clip.reversed != self.reversed;
        if looping {
            if backwards {
                let back: u128 = steps % n;
                proof {
                    lemma_wrap_backwards(from as int, steps as int, n as int);
                    lemma_mod_bound(from as int - steps as int, n as int);
                }
                self.frame = ((from as u128 + n - back) % n) as u32;
            } else {
                proof {
                    lemma_mod_bound(from as int + steps as int, n as int);
                }
                self.frame = ((from as u128 + steps) % n) as u32;
            }
        } else if backwards {
            if steps <= from as u128 {
                self.frame = from - steps as u32;
            } else {
                self.frame = 0;
                self.paused = true;
            }
        } else {
            if steps <= (last - from) as u128 {
                self.frame = from + steps as u32;
            } else {
                self.frame = last;
                self.paused = true;
            }
        }
        self.elapsed = rest as u64;
    }
}

/// Asking a sprite for the clip it plays already leaves it as it is, so
/// asking twice for a clip is the same as asking once; asking for another
/// clip starts that clip at its first frame with no time elapsed and keeps
/// the place, the size and every flag.
pub proof fn lemma_switch_clip_idempotent(s: SpriteInstance, clip: usize)
    ensures
        s.clip == clip ==> s.switched(clip as int) == s,
        s.switched(clip as int).switched(clip as int) == s.switched(clip as int),
        s.clip != clip ==> s.switched(clip as int) == (SpriteInstance {
            clip,
            frame: 0,
            elapsed: 0,
            ..s
        }),
{
}

/// The boundaries crossed by `total > duration` are at least one, and taking
/// their durations off `total` leaves a time from 1 to `duration`.
pub proof fn lemma_steps_bounds(total: int, duration: int)
    requires
        0 < duration < total,
    ensures
        1 <= (total - 1) / duration,
        ((total - 1) / duration) * duration <= total - 1,
        1 <= total - ((total - 1) / duration) * duration <= duration,
{
    let q = (total - 1) / duration;
    lemma_fundamental_div_mod(total - 1, duration);
    lemma_mod_bound(total - 1, duration);
    assert(duration * q == q * duration) by (nonlinear_arith);
    assert(q >= 1) by (nonlinear_arith)
        requires
            q * duration + (total - 1) % duration == total - 1,
            0 <= (total - 1) % duration < duration,
            0 < duration < total,
    ;
}

/// Going back `steps` frames on a ring of `n` frames is going back
/// `steps % n` frames.
pub proof fn lemma_wrap_backwards(from: int, steps: int, n: int)
    requires
        0 <= from < n,
        0 <= steps,
    ensures
        0 <= steps % n < n,
        (from - steps) % n == (from + n - steps % n) % n,
{
    let q = steps / n;
    let back = steps % n;
    lemma_fundamental_div_mod(steps, n);
    lemma_mod_bound(steps, n);
    assert(from - steps == n * (-q - 1) + (from + n - back)) by (nonlinear_arith)
        requires
            steps == n * q + back,
    ;
    lemma_mod_multiples_vanish(-q - 1, from + n - back, n);
}

/// A remainder taken on the way does not change the remainder at the end:
/// `(x % n + y) % n` is `(x + y) % n`.
proof fn lemma_mod_on_the_way(x: int, y: int, n: int)
    requires
        0 < n,
    ensures
        (x % n + y) % n == (x + y) % n,
{
    lemma_fundamental_div_mod(x, n);
    let q = x / n;
    assert(x % n + y == n * (-q) + (x + y)) by (nonlinear_arith)
        requires
            x == n * q + x % n,
    ;
    lemma_mod_multiples_vanish(-q, x + y, n);
}

/// The frame boundaries behind a time are counted one frame duration at a
/// time: a frame shown for no longer than its duration has crossed none,
/// and one duration more is one boundary more.
pub proof fn lemma_crossings_step(total: int, duration: int)
    requires
        0 < duration,
    ensures
        total <= duration ==> crossings(total, duration) == 0,
        total > duration ==> crossings(total, duration) == crossings(total - duration, duration) + 1,
{
    if total <= duration {
        if total > 0 {
            lemma_fundamental_div_mod_converse(total - 1, duration, 0, total - 1);
        }
    } else {
        let q = (total - duration - 1) / duration;
        let r = (total - duration - 1) % duration;
        lemma_fundamental_div_mod(total - duration - 1, duration);
        lemma_mod_bound(total - duration - 1, duration);
        assert(total - 1 == (q + 1) * duration + r) by (nonlinear_arith)
            requires
                total - duration - 1 == duration * q + r,
        ;
        lemma_fundamental_div_mod_converse(total - 1, duration, q + 1, r);
    }
}

/// Taking `count` boundaries off a time that has crossed at least so many
/// leaves the other boundaries to cross.
pub proof fn lemma_crossings_split(total: int, duration: int, count: int)
    requires
        0 < duration,
        0 <= count <= crossings(total, duration),
    ensures
        crossings(total - count * duration, duration) == crossings(total, duration) - count,
        total > 0 ==> total - count * duration > 0,
{
    if total > 0 {
        let q = (total - 1) / duration;
        let r = (total - 1) % duration;
        lemma_fundamental_div_mod(total - 1, duration);
        lemma_mod_bound(total - 1, duration);
        assert(total - count * duration - 1 == (q - count) * duration + r) by (nonlinear_arith)
            requires
                total - 1 == duration * q + r,
        ;
        assert((q - count) * duration >= 0) by (nonlinear_arith)
            requires
                q - count >= 0,
                duration > 0,
        ;
        lemma_fundamental_div_mod_converse(total - count * duration - 1, duration, q - count, r);
    } else {
        assert(count * duration == 0) by (nonlinear_arith)
            requires
                count == 0,
        ;
    }
}

/// The frame after some steps is reached one single step at a time: one
/// step more from the start is one step on from the frame reached, and the
/// sprite has run out exactly when one of the single steps ran out.
pub proof fn lemma_frame_after_step(frame: int, last: int, steps: int, looping: bool, backwards: bool)
    requires
        0 <= frame,
        0 <= last,
        1 <= steps,
    ensures
        frame_after(frame, last, steps + 1, looping, backwards) == frame_after(
            frame_after(frame, last, steps, looping, backwards),
            last,
            1,
            looping,
            backwards,
        ),
        runs_out(frame, last, steps + 1, looping, backwards) == (runs_out(
            frame,
            last,
            steps,
            looping,
            backwards,
        ) || runs_out(frame_after(frame, last, steps, looping, backwards), last, 1, looping, backwards)),
{
    lemma_frame_after_sum(frame, last, steps, 1, looping, backwards);
}

/// Steps add up: `first` steps and then `second` steps from the frame
/// reached lead where `first + second` steps lead.
pub proof fn lemma_frame_after_sum(
    frame: int,
    last: int,
    first: int,
    second: int,
    looping: bool,
    backwards: bool,
)
    requires
        0 <= frame,
        0 <= last,
        0 <= first,
        0 <= second,
    ensures
        0 <= frame_after(frame, last, first, looping, backwards),
        first >= 1 ==> frame_after(frame, last, first, looping, backwards) <= last,
        frame_after(frame, last, first + second, looping, backwards) == frame_after(
            frame_after(frame, last, first, looping, backwards),
            last,
            second,
            looping,
            backwards,
        ),
        runs_out(frame, last, first + second, looping, backwards) == (runs_out(
            frame,
            last,
            first,
            looping,
            backwards,
        ) || runs_out(
            frame_after(frame, last, first, looping, backwards),
            last,
            second,
            looping,
            backwards,
        )),
{
    let n = last + 1;
    let from = if frame < last {
        frame
    } else {
        last
    };
    if first >= 1 && looping {
        lemma_mod_bound(from + first, n);
        lemma_mod_bound(from - first, n);
        if second >= 1 {
            if backwards {
                lemma_mod_on_the_way(from - first, -second, n);
            } else {
                lemma_mod_on_the_way(from + first, second, n);
            }
        }
    }
}

/// For a sprite that starts its clip over at the end, time adds up: a tick
/// of `first` followed by a tick of `second` leaves the sprite where one
/// tick of `first + second` leaves it.
pub proof fn lemma_advance_adds_up(s: SpriteInstance, clip: Clip, first: u64, second: u64)
    requires
        s.loops(clip),
        first + second <= u64::MAX,
    ensures
        s.advanced(clip, first).advanced(clip, second) == s.advanced(clip, (first + second) as u64),
{
    let d = clip.frame_duration as int;
    if !s.paused && d > 0 {
        let last = last_frame(clip.frame_count);
        let early = s.elapsed + first;
        let total = s.elapsed + first + second;
        let k1 = crossings(early, d);
        let k = crossings(total, d);
        let mid = s.advanced(clip, first);
        if early > 0 {
            lemma_fundamental_div_mod(early - 1, d);
            lemma_mod_bound(early - 1, d);
            lemma_div_pos_is_pos(early - 1, d);
            lemma_div_is_ordered(early - 1, total - 1, d);
        } else {
            if total > 0 {
                lemma_div_pos_is_pos(total - 1, d);
            }
        }
        assert(0 <= k1 <= k);
        assert(0 <= early - k1 * d <= d && (early > 0 ==> k1 * d < early)) by (nonlinear_arith)
            requires
                0 <= k1,
                d > 0,
                early > 0 ==> early - 1 == d * k1 + (early - 1) % d,
                early > 0 ==> 0 <= (early - 1) % d < d,
                early <= 0 ==> k1 == 0,
                early >= 0,
        ;
        assert(mid.elapsed == early - k1 * d);
        lemma_crossings_split(total, d, k1);
        let k2 = crossings(mid.elapsed + second, d);
        assert(k2 == k - k1);
        assert((mid.elapsed + second) - k2 * d == total - k * d) by (nonlinear_arith)
            requires
                mid.elapsed == early - k1 * d,
                total == early + second,
                k2 == k - k1,
        ;
        lemma_frame_after_sum(s.frame as int, last, k1, k2, s.loops(clip), s.backwards(clip));
    }
}

} // verus!
