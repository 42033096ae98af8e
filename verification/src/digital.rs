//! The digital text reveal state machine. A label reveals its target text
//! progressively: `Typewriter` advances one character — never one byte —
//! per timer interval, and `Glitch` shows a fully regenerated random
//! scramble each tick until its one-shot timer elapses, then snaps to the
//! target text. `finished` is terminal: once set, the state never mutates
//! again.

use vstd::prelude::*;
use vstd::string::{StringExecFns, StrSliceExecFns};

use crate::textops::push_char;

verus! {

/// Relies on rand::random: draws one value from the thread-local
/// generator's standard distribution. Nothing can be promised of a random
/// value, so nothing is.
pub assume_specification<T>[ rand::random::<T> ]() -> (r: T)
    where
        rand::distr::StandardUniform: rand::distr::Distribution<T>,
;

/// Which reveal effect a label plays. Glitch intensity is the probability
/// that a character position shows a scramble character rather than a
/// space, in thousandths.
#[derive(Clone, Copy, Debug, PartialEq, Eq, Structural)]
pub enum DigitalEffect {
    Typewriter,
    Glitch { intensity_milli: u32 },
}

/// A millisecond timer, repeating or one-shot.
#[derive(Clone, Copy, Debug, PartialEq, Eq, Structural)]
pub struct EffectTimer {
    pub elapsed_ms: u64,
    pub duration_ms: u64,
    pub repeating: bool,
}

impl EffectTimer {
    /// A repeating timer wraps within its interval; a one-shot timer stops
    /// at its duration. Durations stay within one million seconds.
    pub open spec fn wf(self) -> bool {
        &&& 1 <= self.duration_ms <= 1_000_000_000
        &&& if self.repeating {
            self.elapsed_ms < self.duration_ms
        } else {
            self.elapsed_ms <= self.duration_ms
        }
    }

    /// Whether a one-shot timer has run its full duration.
    pub open spec fn spec_finished(self) -> bool {
        self.elapsed_ms >= self.duration_ms
    }

    /// The timer state after one tick of `dt_ms`.
    pub open spec fn spec_tick(self, dt_ms: u64) -> EffectTimer {
        if self.repeating {
            EffectTimer {
                elapsed_ms: ((self.elapsed_ms + dt_ms) % (self.duration_ms as int)) as u64,
                ..self
            }
        } else if self.elapsed_ms + dt_ms >= self.duration_ms {
            EffectTimer { elapsed_ms: self.duration_ms, ..self }
        } else {
            EffectTimer { elapsed_ms: (self.elapsed_ms + dt_ms) as u64, ..self }
        }
    }

    /// Whether this tick crosses the interval boundary: always when a
    /// repeating timer wraps, and exactly once when a one-shot timer
    /// reaches its duration.
    pub open spec fn spec_fired(self, dt_ms: u64) -> bool {
        if self.repeating {
            self.elapsed_ms + dt_ms >= self.duration_ms
        } else {
            self.elapsed_ms < self.duration_ms && self.elapsed_ms + dt_ms >= self.duration_ms
        }
    }

    /// Advances the timer by `dt_ms` and reports whether it fired.
    pub fn tick(&mut self, dt_ms: u64) -> (fired: bool)
        requires
            old(self).wf(),
            dt_ms <= 1_000_000_000,
        ensures
            *final(self) == old(self).spec_tick(dt_ms),
            fired == old(self).spec_fired(dt_ms),
            final(self).wf(),
    {
        let sum = self.elapsed_ms + dt_ms;
        if self.repeating {
            let fired = sum >= self.duration_ms;
            self.elapsed_ms = sum % self.duration_ms;
            fired
        } else if sum >= self.duration_ms {
            let fired = self.elapsed_ms < self.duration_ms;
            self.elapsed_ms = self.duration_ms;
            fired
        } else {
            self.elapsed_ms = sum;
            false
        }
    }
}

/// One animated label: the full target text, the effect, its timer, the
/// character cursor, and the terminal `finished` flag.
pub struct DigitalLabel {
    pub full_text: String,
    pub effect: DigitalEffect,
    pub timer: EffectTimer,
    pub char_index: usize,
    pub finished: bool,
}

impl DigitalLabel {
    /// The cursor counts characters, never bytes, and can pass the end by
    /// at most one — the step that sets `finished`.
    pub open spec fn wf(self) -> bool {
        &&& self.timer.wf()
        &&& self.full_text@.len() <= 1_000_000_000
        &&& self.char_index <= self.full_text@.len() + 1
        &&& !self.finished ==> self.char_index <= self.full_text@.len()
        &&& match self.effect {
            DigitalEffect::Typewriter => self.timer.repeating,
            DigitalEffect::Glitch { intensity_milli } => !self.timer.repeating
                && intensity_milli <= 1000,
        }
    }

    /// How many characters of the target text are revealed.
    pub open spec fn visible_chars(self) -> int {
        if self.char_index <= self.full_text@.len() {
            self.char_index as int
        } else {
            self.full_text@.len() as int
        }
    }

    /// A typewriter reveal at the given characters-per-second rate.
    pub fn typewriter(text: String, chars_per_sec: u32) -> (r: DigitalLabel)
        requires
            1 <= chars_per_sec <= 1000,
            text@.len() <= 1_000_000_000,
        ensures
            r.wf(),
            r.full_text == text,
            r.effect == DigitalEffect::Typewriter,
            r.char_index == 0,
            !r.finished,
            r.timer.duration_ms == 1000 as u64 / chars_per_sec as u64,
            r.timer.elapsed_ms == 0,
            r.timer.repeating,
    {
        proof {
            vstd::arithmetic::div_mod::lemma_div_non_zero(1000, chars_per_sec as int);
            vstd::arithmetic::div_mod::lemma_div_nonincreasing(1000, chars_per_sec as int);
            assert(1 <= 1000 as u64 / (chars_per_sec as u64) <= 1000);
        }
        DigitalLabel {
            full_text: text,
            effect: DigitalEffect::Typewriter,
            timer: EffectTimer {
                elapsed_ms: 0,
                duration_ms: 1000u64 / (chars_per_sec as u64),
                repeating: true,
            },
            char_index: 0,
            finished: false,
        }
    }

    /// A glitch reveal at the default half intensity.
    pub fn glitch(text: String, duration_ms: u64) -> (r: DigitalLabel)
        requires
            1 <= duration_ms <= 1_000_000_000,
            text@.len() <= 1_000_000_000,
        ensures
            r.wf(),
            r.full_text == text,
            r.effect == (DigitalEffect::Glitch { intensity_milli: 500 }),
            r.char_index == 0,
            !r.finished,
            r.timer.duration_ms == duration_ms,
            r.timer.elapsed_ms == 0,
            !r.timer.repeating,
    {
        Self::glitch_with_intensity(text, duration_ms, 500)
    }

    /// A glitch reveal with an explicit intensity in thousandths.
    pub fn glitch_with_intensity(text: String, duration_ms: u64, intensity_milli: u32) -> (r:
        DigitalLabel)
        requires
            1 <= duration_ms <= 1_000_000_000,
            text@.len() <= 1_000_000_000,
            intensity_milli <= 1000,
        ensures
            r.wf(),
            r.full_text == text,
            r.effect == (DigitalEffect::Glitch { intensity_milli }),
            r.char_index == 0,
            !r.finished,
            r.timer.duration_ms == duration_ms,
            r.timer.elapsed_ms == 0,
            !r.timer.repeating,
    {
        DigitalLabel {
            full_text: text,
            effect: DigitalEffect::Glitch { intensity_milli },
            timer: EffectTimer { elapsed_ms: 0, duration_ms, repeating: false },
            char_index: 0,
            finished: false,
        }
    }

    /// The deterministic part of one tick: every field of the next state.
    pub open spec fn spec_next(pre: DigitalLabel, dt_ms: u64) -> DigitalLabel {
        if pre.finished {
            pre
        } else {
            let t2 = pre.timer.spec_tick(dt_ms);
            let fired = pre.timer.spec_fired(dt_ms);
            match pre.effect {
                DigitalEffect::Typewriter => {
                    if fired {
                        if pre.char_index + 1 <= pre.full_text@.len() {
                            DigitalLabel {
                                timer: t2,
                                char_index: (pre.char_index + 1) as usize,
                                ..pre
                            }
                        } else {
                            DigitalLabel {
                                timer: t2,
                                char_index: (pre.char_index + 1) as usize,
                                finished: true,
                                ..pre
                            }
                        }
                    } else {
                        DigitalLabel { timer: t2, ..pre }
                    }
                },
                DigitalEffect::Glitch { .. } => {
                    if t2.spec_finished() {
                        DigitalLabel { timer: t2, finished: true, ..pre }
                    } else {
                        DigitalLabel { timer: t2, ..pre }
                    }
                },
            }
        }
    }

    /// What the tick may hand back as the label's new display text.
    /// Typewriter updates are exact prefixes; glitch updates are either the
    /// final snap to the target text or a same-length scramble of printable
    /// characters and spaces, all spaces at intensity zero and no spaces at
    /// full intensity.
    pub open spec fn tick_update_ok(pre: DigitalLabel, dt_ms: u64, u: Option<String>) -> bool {
        if pre.finished {
            u is None
        } else {
            let fired = pre.timer.spec_fired(dt_ms);
            match pre.effect {
                DigitalEffect::Typewriter => match u {
                    Some(s) => {
                        &&& fired
                        &&& pre.char_index + 1 <= pre.full_text@.len()
                        &&& s@ == pre.full_text@.subrange(0, pre.char_index + 1)
                    },
                    None => !fired || pre.char_index + 1 > pre.full_text@.len(),
                },
                DigitalEffect::Glitch { intensity_milli } => {
                    let t2 = pre.timer.spec_tick(dt_ms);
                    match u {
                        Some(s) => {
                            if t2.spec_finished() {
                                s@ == pre.full_text@
                            } else {
                                &&& s@.len() == pre.full_text@.len()
                                &&& forall|i: int|
                                    0 <= i < s@.len() ==> (#[trigger] s@[i]) == ' ' || (33 <= s@[i]
                                        as u32 <= 126)
                                &&& intensity_milli == 0 ==> forall|i: int|
                                    0 <= i < s@.len() ==> (#[trigger] s@[i]) == ' '
                                &&& intensity_milli >= 1000 ==> forall|i: int|
                                    0 <= i < s@.len() ==> 33 <= (#[trigger] s@[i]) as u32 <= 126
                            }
                        },
                        None => false,
                    }
                },
            }
        }
    }

    /// The label after a whole run of ticks, applied in order.
    pub open spec fn spec_run(pre: DigitalLabel, dts: Seq<u64>) -> DigitalLabel
        decreases dts.len(),
    {
        if dts.len() == 0 {
            pre
        } else {
            DigitalLabel::spec_run(DigitalLabel::spec_next(pre, dts[0]), dts.drop_first())
        }
    }

    /// Advances the label by one tick. A finished label never changes; the
    /// visible character count never decreases; the returned text, if any,
    /// is the label's new display content.
    pub fn tick(&mut self, dt_ms: u64) -> (update: Option<String>)
        requires
            old(self).wf(),
            dt_ms <= 1_000_000_000,
        ensures
            final(self).wf(),
            *final(self) == DigitalLabel::spec_next(*old(self), dt_ms),
            DigitalLabel::tick_update_ok(*old(self), dt_ms, update),
            old(self).finished ==> *final(self) == *old(self) && update is None,
            old(self).finished ==> final(self).finished,
            final(self).visible_chars() >= old(self).visible_chars(),
            final(self).full_text == old(self).full_text,
    {
        if self.finished {
            return None;
        }
        let fired = self.timer.tick(dt_ms);
        let effect = self.effect;
        match effect {
            DigitalEffect::Typewriter => {
                if fired {
                    let len = self.full_text.as_str().unicode_len();
                    let ci = self.char_index + 1;
                    self.char_index = ci;
                    if ci <= len {
                        let prefix = self.full_text.as_str().substring_char(0, ci).to_owned();
                        Some(prefix)
                    } else {
                        self.finished = true;
                        None
                    }
                } else {
                    None
                }
            },
            DigitalEffect::Glitch { intensity_milli } => {
                if self.timer.elapsed_ms >= self.timer.duration_ms {
                    self.finished = true;
                    Some(self.full_text.clone())
                } else {
                    let n = self.full_text.as_str().unicode_len();
                    let mut g = String::new();
                    let mut i: usize = 0;
                    while i < n
                        invariant
                            n == self.full_text@.len(),
                            0 <= i <= n,
                            g@.len() == i,
                            intensity_milli <= 1000,
                            forall|j: int|
                                0 <= j < i ==> (#[trigger] g@[j]) == ' ' || (33 <= g@[j] as u32
                                    <= 126),
                            intensity_milli == 0 ==> forall|j: int|
                                0 <= j < i ==> (#[trigger] g@[j]) == ' ',
                            intensity_milli >= 1000 ==> forall|j: int|
                                0 <= j < i ==> 33 <= (#[trigger] g@[j]) as u32 <= 126,
                        decreases n - i,
                    {
                        let roll: u32 = rand::random::<u32>() % 1000;
                        if roll < intensity_milli {
                            let scramble: u8 = rand::random::<u8>() % 94 + 33;
                            push_char(&mut g, scramble as char);
                        } else {
                            push_char(&mut g, ' ');
                        }
                        i += 1;
                    }
                    Some(g)
                }
            },
        }
    }
}

/// One tick of a well-formed label leaves a well-formed label.
pub proof fn lemma_next_wf(pre: DigitalLabel, dt_ms: u64)
    requires
        pre.wf(),
    ensures
        DigitalLabel::spec_next(pre, dt_ms).wf(),
        DigitalLabel::spec_next(pre, dt_ms).visible_chars() >= pre.visible_chars(),
        DigitalLabel::spec_next(pre, dt_ms).full_text == pre.full_text,
{
    let t = pre.timer;
    if !pre.finished && t.repeating {
        assert(0 <= (t.elapsed_ms + dt_ms) % (t.duration_ms as int) < t.duration_ms);
    }
}

/// Reveal progress is monotonic across any run of ticks: the visible
/// character count never decreases, the target text never changes, and a
/// finished label never mutates again.
pub proof fn lemma_reveal_monotonic(pre: DigitalLabel, dts: Seq<u64>)
    requires
        pre.wf(),
    ensures
        DigitalLabel::spec_run(pre, dts).visible_chars() >= pre.visible_chars(),
        DigitalLabel::spec_run(pre, dts).full_text == pre.full_text,
        pre.finished ==> DigitalLabel::spec_run(pre, dts) == pre,
        pre.finished ==> DigitalLabel::spec_run(pre, dts).finished,
    decreases dts.len(),
{
    if dts.len() > 0 {
        lemma_next_wf(pre, dts[0]);
        lemma_reveal_monotonic(DigitalLabel::spec_next(pre, dts[0]), dts.drop_first());
    }
}

} // verus!
