//! The read and write positions of a delay line in a circular buffer.

use vstd::prelude::*;
use vstd::arithmetic::div_mod::{
    lemma_add_mod_noop, lemma_mod_sub_multiples_vanish, lemma_mod_twice, lemma_small_mod,
};

verus! {

/// Where one sample of a delay line is read and where it is written.
#[derive(Clone, Copy, Debug, PartialEq, Eq, Structural)]
pub struct DelayStep {
    /// Position of the sample that was written `delay_samples` steps ago.
    pub read_index: usize,
    /// Position at which the new sample is stored.
    pub write_index: usize,
}

/// The positions of a delay line. The buffer that holds the samples belongs
/// to the caller and has `buffer_size` places.
#[derive(Clone, Copy, Debug, PartialEq, Eq, Structural)]
pub struct Delay {
    pub buffer_size: usize,
    pub write_index: usize,
    pub delay_samples: usize,
}

impl Delay {
    /// The buffer has one place more than the delay is long, and the write
    /// position lies in it.
    pub open spec fn wf(self) -> bool {
        &&& self.buffer_size == self.delay_samples + 1
        &&& self.write_index < self.buffer_size
    }

    /// The position that is read while the write position is written.
    pub open spec fn read_position(self) -> int {
        (self.write_index + self.buffer_size - self.delay_samples) % (self.buffer_size as int)
    }

    /// The line after one sample.
    pub open spec fn advanced(self) -> Delay {
        Delay {
            write_index: ((self.write_index + 1) % (self.buffer_size as int)) as usize,
            ..self
        }
    }

    /// The line after `steps` samples.
    pub open spec fn advanced_by(self, steps: nat) -> Delay
        decreases steps,
    {
        if steps == 0 {
            self
        } else {
            self.advanced_by((steps - 1) as nat).advanced()
        }
    }

    /// A delay line of the given length, in samples. Its buffer has one
    /// place more.
    pub fn new(delay_samples: usize) -> (line: Delay)
        requires
            delay_samples < usize::MAX,
        ensures
            line.wf(),
            line == (Delay {
                buffer_size: (delay_samples + 1) as usize,
                write_index: 0,
                delay_samples,
            }),
    {
        Delay { buffer_size: delay_samples + 1, write_index: 0, delay_samples }
    }

    /// Whether the line is valid.
    pub fn is_valid(&self) -> (valid: bool)
        ensures
            valid == self.wf(),
    {
        self.delay_samples < usize::MAX && self.buffer_size == self.delay_samples + 1
            && self.write_index < self.buffer_size
    }

    /// The positions for the next sample: where the delayed sample is read
    /// and where the new one is written. The line moves on by one place.
    pub fn process_sample(&mut self) -> (step: DelayStep)
        requires
            old(self).wf(),
        ensures
            final(self).wf(),
            *final(self) == old(self).advanced(),
            step.write_index == old(self).write_index,
            step.read_index == old(self).read_position(),
            step.read_index < old(self).buffer_size,
    {
        let read_index = if self.write_index >= self.delay_samples {
            self.write_index - self.delay_samples
        } else {
            self.buffer_size - self.delay_samples + self.write_index
        };
        proof {
            lemma_wrap(
                self.write_index + self.buffer_size - self.delay_samples,
                self.buffer_size as int,
            );
        }
        let write_index = self.write_index;
        self.write_index = (self.write_index + 1) % self.buffer_size;
        DelayStep { read_index, write_index }
    }
}

/// Counting around a ring of `size` places: a number below `size` stands for
/// itself, and a number from `size` to below twice `size` for what exceeds
/// `size`.
proof fn lemma_wrap(x: int, size: int)
    requires
        0 < size,
        0 <= x < 2 * size,
    ensures
        x % size == if x < size {
            x
        } else {
            x - size
        },
{
    if x < size {
        lemma_small_mod(x as nat, size as nat);
    } else {
        lemma_mod_sub_multiples_vanish(x, size);
        lemma_small_mod((x - size) as nat, size as nat);
    }
}

/// After `steps` samples the write position has moved on by `steps` places
/// around the buffer, and nothing else has changed.
pub proof fn lemma_write_position(line: Delay, steps: nat)
    requires
        line.wf(),
    ensures
        line.advanced_by(steps).wf(),
        line.advanced_by(steps) == (Delay {
            write_index: ((line.write_index + steps) % (line.buffer_size as int)) as usize,
            ..line
        }),
    decreases steps,
{
    let size = line.buffer_size as int;
    let start = line.write_index as int;
    if steps == 0 {
        lemma_wrap(start, size);
    } else {
        let before = line.advanced_by((steps - 1) as nat);
        lemma_write_position(line, (steps - 1) as nat);
        assert((((start + steps - 1) % size) + 1) % size == (start + steps) % size) by {
            lemma_add_mod_noop(start + steps - 1, 1, size);
            lemma_add_mod_noop((start + steps - 1) % size, 1, size);
            lemma_mod_twice(start + steps - 1, size);
        }
        lemma_wrap(before.write_index + 1, size);
    }
}

/// A sample comes out exactly `delay_samples` steps after it went in: the
/// place that is written now is read that many samples later, and at no
/// sample before.
pub proof fn lemma_delay_is_exact(line: Delay, steps: nat)
    requires
        line.wf(),
        steps <= line.delay_samples,
    ensures
        line.advanced_by(steps).read_position() == line.write_index <==> steps
            == line.delay_samples,
{
    let size = line.buffer_size as int;
    let start = line.write_index as int;
    lemma_write_position(line, steps);
    lemma_wrap(start + steps, size);
    let later = (start + steps) % size;
    lemma_wrap(later + size - line.delay_samples, size);
}

} // verus!
