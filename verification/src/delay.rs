//! Fixed-capacity delay lines.
//!
//! A delay line remembers the last `N` samples it was given. It is stored as
//! a circular buffer with a single cursor: the slot under the cursor holds
//! the oldest sample, which is the one a reader hears and the one the next
//! write replaces.

use crate::error::DspError;
use crate::timing::{delay_samples, line_capacity};
use vstd::prelude::*;

verus! {

/// Mathematical model of a delay line.
pub struct DelayModel<T> {
    /// The retained samples, oldest first. The first element is under the
    /// cursor; the last is the most recently passed slot.
    pub history: Seq<T>,
    /// Index of the slot under the cursor in storage order.
    pub cursor: nat,
}

impl<T> DelayModel<T> {
    /// There is at least one slot and the cursor points at a slot.
    pub open spec fn wf(self) -> bool {
        self.cursor < self.history.len()
    }

    /// A line of `len` slots that all hold `fill`, with the cursor at the
    /// first slot.
    pub open spec fn silent(len: nat, fill: T) -> Self {
        DelayModel { history: Seq::new(len, |i: int| fill), cursor: 0 }
    }

    /// The cursor position `steps` slots further on, wrapping at the end.
    pub open spec fn cursor_after(self, steps: nat) -> nat {
        (self.cursor + steps) % self.history.len()
    }

    /// The line after `sample` has replaced the oldest sample in place.
    pub open spec fn store(self, sample: T) -> Self {
        DelayModel { history: self.history.update(0, sample), cursor: self.cursor }
    }

    /// The line after the cursor has moved one slot on: the sample that was
    /// oldest is now the most recently passed one.
    pub open spec fn rotate(self) -> Self {
        DelayModel {
            history: self.history.drop_first().push(self.history[0]),
            cursor: self.cursor_after(1),
        }
    }

    /// The line after `sample` has replaced the oldest sample and the cursor
    /// has moved on.
    pub open spec fn shift(self, sample: T) -> Self {
        DelayModel {
            history: self.history.drop_first().push(sample),
            cursor: self.cursor_after(1),
        }
    }

    /// The sample `delay` slots behind the cursor. A delay of zero reads the
    /// slot under the cursor itself, as a delay of the full length does.
    pub open spec fn tap(self, delay: nat) -> T {
        if delay == 0 {
            self.history[0]
        } else {
            self.history[self.history.len() - delay]
        }
    }

    /// Everything the line has retained followed by a block of new input.
    pub open spec fn timeline(self, input: Seq<T>) -> Seq<T> {
        self.history + input
    }

    /// What is heard while `input` is shifted through the line, sample by
    /// sample: the timeline, cut to the length of the input.
    pub open spec fn delayed(self, input: Seq<T>) -> Seq<T> {
        self.timeline(input).take(input.len() as int)
    }

    /// The line after `input` has been shifted through it: it retains the
    /// tail of the timeline.
    pub open spec fn feed(self, input: Seq<T>) -> Self {
        DelayModel {
            history: self.timeline(input).skip(input.len() as int),
            cursor: self.cursor_after(input.len()),
        }
    }
}

/// A circular buffer of samples with one cursor that serves both reading and
/// writing.
pub struct DelayLine<T> {
    slots: Vec<T>,
    cursor: usize,
}

impl<T> View for DelayLine<T> {
    type V = DelayModel<T>;

    closed spec fn view(&self) -> DelayModel<T> {
        DelayModel {
            history: Seq::new(
                self.slots@.len(),
                |i: int| self.slots@[(self.cursor + i) % (self.slots@.len() as int)],
            ),
            cursor: self.cursor as nat,
        }
    }
}

impl<T> DelayLine<T> {
    #[verifier::type_invariant]
    spec fn inv(self) -> bool {
        self.cursor < self.slots.len()
    }
}

/// Reducing a value below `2 * n` modulo `n` subtracts `n` at most once.
proof fn lemma_wrap_once(x: int, n: int)
    requires
        0 < n,
        0 <= x < 2 * n,
    ensures
        x % n == if x < n { x } else { x - n },
{
    if x < n {
        vstd::arithmetic::div_mod::lemma_small_mod(x as nat, n as nat);
    } else {
        vstd::arithmetic::div_mod::lemma_small_mod((x - n) as nat, n as nat);
        vstd::arithmetic::div_mod::lemma_mod_sub_multiples_vanish(x, n);
    }
}

impl<T: Copy> DelayLine<T> {
    /// Creates a line of `capacity` slots filled with `fill`. A capacity of
    /// zero is raised to one, so that the cursor always has a slot to point at.
    pub fn new(capacity: usize, fill: T) -> (line: Self)
        ensures
            line@ == DelayModel::silent(if capacity == 0 { 1nat } else { capacity as nat }, fill),
            line@.wf(),
    {
        let n: usize = if capacity == 0 { 1 } else { capacity };
        let mut slots: Vec<T> = Vec::with_capacity(n);
        while slots.len() < n
            invariant
                slots.len() <= n,
                forall|i: int| 0 <= i < slots.len() ==> slots[i] == fill,
            decreases n - slots.len(),
        {
            slots.push(fill);
        }
        let line = DelayLine { slots, cursor: 0 };
        assert(line@.history =~= DelayModel::silent(n as nat, fill).history);
        line
    }

    /// Creates a line that holds `duration_ms` milliseconds of signal at
    /// `sample_rate` samples per second, filled with `fill`. The duration is
    /// rounded to the nearest whole sample, and a line has at least one slot.
    ///
    /// A sample rate of zero is rejected, and so is a duration that spans
    /// more samples than a buffer can hold.
    pub fn with_duration(sample_rate: u32, duration_ms: u32, fill: T) -> (made: Result<
        Self,
        DspError,
    >)
        ensures
            made is Ok <==> sample_rate > 0 && line_capacity(
                sample_rate as nat,
                duration_ms as nat,
            ) <= usize::MAX,
            made matches Ok(line) ==> line@ == DelayModel::silent(
                line_capacity(sample_rate as nat, duration_ms as nat),
                fill,
            ) && line@.wf(),
            made matches Err(e) ==> e == DspError::InvalidParameter,
    {
        if sample_rate == 0 {
            return Err(DspError::InvalidParameter);
        }
        let span: u64 = delay_samples(sample_rate, duration_ms);
        if span > usize::MAX as u64 {
            return Err(DspError::InvalidParameter);
        }
        Ok(Self::new(span as usize, fill))
    }

    /// Number of slots.
    pub fn len(&self) -> (n: usize)
        ensures
            n == self@.history.len(),
            n >= 1,
            self@.wf(),
    {
        proof {
            use_type_invariant(self);
        }
        self.slots.len()
    }

    /// Index of the slot under the cursor, in storage order.
    pub fn cursor(&self) -> (cursor: usize)
        ensures
            cursor == self@.cursor,
            self@.wf(),
    {
        proof {
            use_type_invariant(self);
        }
        self.cursor
    }

    /// The oldest retained sample: the one under the cursor.
    pub fn read(&self) -> (sample: T)
        ensures
            self@.wf(),
            sample == self@.history[0],
    {
        proof {
            use_type_invariant(self);
            lemma_wrap_once(self.cursor as int, self.slots@.len() as int);
        }
        self.slots[self.cursor]
    }

    /// The sample `delay` slots behind the cursor.
    pub fn tap(&self, delay: usize) -> (sample: T)
        requires
            delay <= self@.history.len(),
        ensures
            self@.wf(),
            sample == self@.tap(delay as nat),
    {
        proof {
            use_type_invariant(self);
        }
        let n: usize = self.slots.len();
        let back: usize = n - delay;
        let index: usize = if back >= n - self.cursor {
            back - (n - self.cursor)
        } else {
            self.cursor + back
        };
        proof {
            let c = self.cursor as int;
            if delay == 0 {
                lemma_wrap_once(c, n as int);
            } else {
                lemma_wrap_once(c + back, n as int);
            }
        }
        self.slots[index]
    }

    /// Replaces the sample under the cursor; the cursor stays.
    pub fn write(&mut self, sample: T)
        ensures
            final(self)@ == old(self)@.store(sample),
            final(self)@.wf(),
    {
        proof {
            use_type_invariant(&*self);
        }
        self.slots[self.cursor] = sample;
        proof {
            let n = self.slots@.len() as int;
            let c = self.cursor as int;
            assert forall|i: int| 0 <= i < n implies #[trigger] self@.history[i] == old(self)@.store(
                sample,
            ).history[i] by {
                lemma_wrap_once(c + i, n);
            }
            assert(self@.history =~= old(self)@.store(sample).history);
        }
    }

    /// Moves the cursor one slot on, wrapping at the end.
    pub fn advance(&mut self)
        ensures
            final(self)@ == old(self)@.rotate(),
            final(self)@.wf(),
    {
        proof {
            use_type_invariant(&*self);
        }
        self.cursor = (self.cursor + 1) % self.slots.len();
        proof {
            let n = self.slots@.len() as int;
            let c = old(self).cursor as int;
            lemma_wrap_once(c + 1, n);
            lemma_wrap_once(c, n);
            assert forall|i: int| 0 <= i < n implies #[trigger] self@.history[i] == old(
                self,
            )@.rotate().history[i] by {
                lemma_wrap_once(self.cursor + i, n);
                lemma_wrap_once(c + i + 1, n);
            }
            assert(self@.history =~= old(self)@.rotate().history);
        }
    }

    /// Takes the oldest sample out and puts `sample` in as the newest: one
    /// read, one write and one advance.
    pub fn shift(&mut self, sample: T) -> (delayed: T)
        ensures
            delayed == old(self)@.history[0],
            final(self)@ == old(self)@.shift(sample),
            final(self)@.wf(),
    {
        let delayed = self.read();
        self.write(sample);
        self.advance();
        proof {
            assert(self@.history =~= old(self)@.shift(sample).history);
        }
        delayed
    }

    /// Shifts a whole block through the line in place: each sample is
    /// replaced by the one the line gives up for it. The line carries its
    /// state over to the next block.
    pub fn delay_block(&mut self, samples: &mut Vec<T>)
        ensures
            final(samples)@ == old(self)@.delayed(old(samples)@),
            final(self)@ == old(self)@.feed(old(samples)@),
            final(self)@.wf(),
    {
        proof {
            use_type_invariant(&*self);
            lemma_wrap_once(self.cursor as int, self.slots@.len() as int);
            assert(self@.history =~= old(self)@.feed(old(samples)@.take(0)).history);
        }
        let n: usize = samples.len();
        let mut k: usize = 0;
        while k < n
            invariant
                k <= n,
                samples.len() == n,
                old(samples)@.len() == n,
                old(self)@.wf(),
                self@ == old(self)@.feed(old(samples)@.take(k as int)),
                forall|j: int| 0 <= j < k ==> samples@[j] == old(self)@.timeline(old(samples)@)[j],
                forall|j: int| k <= j < n ==> samples@[j] == old(samples)@[j],
            decreases n - k,
        {
            let heard = self.shift(samples[k]);
            samples[k] = heard;
            proof {
                let fed = old(self)@.feed(old(samples)@.take(k + 1));
                vstd::arithmetic::div_mod::lemma_add_mod_noop_right(
                    1,
                    old(self)@.cursor + k,
                    old(self)@.history.len() as int,
                );
                assert(self@.cursor == fed.cursor);
                assert(self@.history =~= fed.history);
            }
            k += 1;
        }
        proof {
            assert(old(samples)@.take(n as int) =~= old(samples)@);
            assert(samples@ =~= old(self)@.delayed(old(samples)@));
        }
    }
}

/// Shifting one sample is feeding a block of one: the oldest sample is heard
/// and the new one takes the newest place.
pub proof fn lemma_shift_is_feed_of_one<T>(line: DelayModel<T>, sample: T)
    requires
        line.wf(),
    ensures
        line.store(sample).rotate() == line.shift(sample),
        line.feed(seq![sample]) == line.shift(sample),
        line.delayed(seq![sample]) == seq![line.history[0]],
        line.shift(sample).wf(),
        line.shift(sample).history.len() == line.history.len(),
{
    assert(line.store(sample).rotate().history =~= line.shift(sample).history);
    assert(line.feed(seq![sample]).history =~= line.shift(sample).history);
    assert(line.delayed(seq![sample]) =~= seq![line.history[0]]);
}

/// A line keeps its length and a valid cursor whatever is fed through it,
/// and the cursor has then advanced by one slot per sample, modulo the
/// length.
pub proof fn lemma_feed_keeps_shape<T>(line: DelayModel<T>, input: Seq<T>)
    requires
        line.wf(),
    ensures
        line.feed(input).wf(),
        line.feed(input).history.len() == line.history.len(),
        line.feed(input).cursor == (line.cursor + input.len()) % line.history.len(),
        line.delayed(input).len() == input.len(),
{
    vstd::arithmetic::div_mod::lemma_mod_bound(
        (line.cursor + input.len()) as int,
        line.history.len() as int,
    );
}

/// Continuity across blocks: feeding two blocks one after the other hears
/// and retains exactly what feeding their concatenation does.
pub proof fn lemma_feed_in_blocks<T>(line: DelayModel<T>, first: Seq<T>, second: Seq<T>)
    requires
        line.wf(),
    ensures
        line.feed(first).feed(second) == line.feed(first + second),
        line.delayed(first) + line.feed(first).delayed(second) == line.delayed(first + second),
{
    let n = line.history.len() as int;
    lemma_feed_keeps_shape(line, first);
    vstd::arithmetic::div_mod::lemma_add_mod_noop_right(
        second.len() as int,
        (line.cursor + first.len()) as int,
        n,
    );
    assert(line.feed(first).feed(second).cursor == line.feed(first + second).cursor);
    assert(line.feed(first).feed(second).history =~= line.feed(first + second).history);
    assert(line.delayed(first) + line.feed(first).delayed(second) =~= line.delayed(
        first + second,
    ));
}

/// What comes out of a line trails what went in by the length of the line:
/// first the samples the line held, oldest first, then the input from its
/// start.
pub proof fn lemma_delayed_trails_input<T>(line: DelayModel<T>, input: Seq<T>, i: int)
    requires
        line.wf(),
        0 <= i < input.len(),
    ensures
        line.delayed(input)[i] == if i < line.history.len() {
            line.history[i]
        } else {
            input[i - line.history.len()]
        },
{
}

/// A fresh line gives out its fill value for as many samples as it has
/// slots, and after that the input, delayed by that many samples.
pub proof fn lemma_silence_then_input<T>(len: nat, fill: T, input: Seq<T>, i: int)
    requires
        len >= 1,
        0 <= i < input.len(),
    ensures
        DelayModel::silent(len, fill).delayed(input)[i] == if i < len {
            fill
        } else {
            input[i - len]
        },
{
}

/// After as many advances as the line has slots the cursor is back where it
/// was.
pub proof fn lemma_cursor_full_turn<T>(line: DelayModel<T>)
    requires
        line.wf(),
    ensures
        line.cursor_after(line.history.len()) == line.cursor,
        line.cursor_after(0) == line.cursor,
{
    let n = line.history.len() as int;
    vstd::arithmetic::div_mod::lemma_small_mod(line.cursor, line.history.len());
    vstd::arithmetic::div_mod::lemma_mod_add_multiples_vanish(line.cursor as int, n);
}

/// A tap reaches back from the newest end of the history: a delay of one
/// reads the newest sample, a delay of the full length the oldest.
pub proof fn lemma_tap_reaches_back<T>(line: DelayModel<T>, delay: nat)
    requires
        line.wf(),
        1 <= delay <= line.history.len(),
    ensures
        line.tap(delay) == line.history[line.history.len() - delay],
        line.tap(1) == line.history.last(),
        line.tap(line.history.len()) == line.history[0],
        line.tap(0) == line.history[0],
{
}

/// Once input has been fed, a tap hears it again: a delay of `delay`
/// samples reads the input sample that went in `delay` samples ago.
pub proof fn lemma_tap_hears_input<T>(line: DelayModel<T>, input: Seq<T>, delay: nat)
    requires
        line.wf(),
        1 <= delay <= line.history.len(),
        delay <= input.len(),
    ensures
        line.feed(input).tap(delay) == input[input.len() - delay],
{
}

} // verus!
