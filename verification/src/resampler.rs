//! Sample-rate conversion by linear interpolation, one output at a time.
//!
//! The converter walks the source at `rate_in / rate_out` source samples per
//! output. Its position is kept exactly, as a count of `1 / rate_out` parts of
//! a source sample, so no step ever drifts. Each output is handed out as a
//! [`Blend`]: the two source samples around the position and the fraction of
//! the way from the first to the second. Turning a blend into an amplitude,
//! `left + (right - left) * num / den`, is arithmetic on the samples
//! themselves and is left to the caller.

use crate::source::SampleSource;
use crate::source::SILENCE;
use vstd::prelude::*;

verus! {

/// A point on the line between two neighbouring source samples: `num / den`
/// of the way from `left` to `right`.
#[derive(Clone, Copy, Debug, PartialEq, Eq, Structural)]
pub struct Blend {
    /// The source sample before the point.
    pub left: u32,
    /// The source sample after the point.
    pub right: u32,
    /// The numerator of the fraction; below `den`.
    pub num: u32,
    /// The denominator of the fraction: the output rate.
    pub den: u32,
}

impl Blend {
    /// The fraction is a proper one.
    pub open spec fn wf(self) -> bool {
        self.num < self.den
    }

    /// The sample that the blend is, where it falls on one: the left one at
    /// fraction zero.
    pub open spec fn exact_spec(self) -> Option<u32> {
        if self.num == 0 {
            Some(self.left)
        } else {
            None
        }
    }

    /// The source sample that this blend is, unchanged, where the point falls
    /// exactly on one; nothing where it lies between two.
    pub fn exact(&self) -> (sample: Option<u32>)
        ensures
            sample == self.exact_spec(),
    {
        if self.num == 0 {
            Some(self.left)
        } else {
            None
        }
    }
}

/// Where a converter stands: the last two source samples and the distance
/// walked past the older of them, in `1 / rate_out` parts of a sample.
pub struct Position {
    /// The older of the last two source samples.
    pub left: u32,
    /// The newer of the last two source samples.
    pub right: u32,
    /// The distance past `left`.
    pub phase: nat,
    /// The rate of the source in Hz.
    pub rate_in: nat,
    /// The rate of the output in Hz.
    pub rate_out: nat,
}

impl Position {
    /// Both rates are positive and fit 32 bits, and the walk is at most one
    /// step past the next output.
    pub open spec fn wf(self) -> bool {
        &&& 0 < self.rate_in <= u32::MAX
        &&& 0 < self.rate_out <= u32::MAX
        &&& self.phase < self.rate_in + self.rate_out
    }

    /// The position at the start of a stream: both anchors silent, nothing
    /// walked yet.
    pub open spec fn start(rate_in: u32, rate_out: u32) -> Position {
        Position {
            left: SILENCE,
            right: SILENCE,
            phase: 0,
            rate_in: rate_in as nat,
            rate_out: rate_out as nat,
        }
    }

    /// Whether a source sample must be pulled before the next output.
    pub open spec fn is_due(self) -> bool {
        self.phase >= self.rate_out
    }

    /// How many source samples must be pulled before the next output.
    pub open spec fn due(self) -> nat {
        self.phase / self.rate_out
    }

    /// The position after one source sample was pulled.
    pub open spec fn pull(self, sample: u32) -> Position {
        Position {
            left: self.right,
            right: sample,
            phase: (self.phase - self.rate_out) as nat,
            rate_in: self.rate_in,
            rate_out: self.rate_out,
        }
    }

    /// The position after these source samples were pulled, in order.
    pub open spec fn pull_all(self, samples: Seq<u32>) -> Position
        decreases samples.len(),
    {
        if samples.len() == 0 {
            self
        } else {
            self.pull_all(samples.drop_last()).pull(samples.last())
        }
    }

    /// The output at this position.
    pub open spec fn blend(self) -> Blend {
        Blend {
            left: self.left,
            right: self.right,
            num: self.phase as u32,
            den: self.rate_out as u32,
        }
    }

    /// The position after an output: one step of `rate_in` parts further.
    pub open spec fn emit(self) -> Position {
        Position {
            left: self.left,
            right: self.right,
            phase: self.phase + self.rate_in,
            rate_in: self.rate_in,
            rate_out: self.rate_out,
        }
    }

    /// One output, seen from outside: the samples that were due were pulled,
    /// whatever they were, and `blend` is the output behind them, `after` the
    /// position one step further.
    pub open spec fn yields(self, after: Position, blend: Blend) -> bool {
        exists|pulled: Seq<u32>|
            pulled.len() == self.due() && blend == (#[trigger] self.pull_all(pulled)).blend()
                && after == self.pull_all(pulled).emit()
    }
}

/// Pulling one sample lowers the number of samples due by one, and none is
/// due exactly where the next output lies before the newer anchor.
pub proof fn lemma_due_counts_pulls(position: Position, sample: u32)
    requires
        position.rate_out > 0,
    ensures
        position.is_due() <==> position.due() > 0,
        position.is_due() ==> position.pull(sample).due() == position.due() - 1,
{
    let p = position.phase as int;
    let d = position.rate_out as int;
    vstd::arithmetic::div_mod::lemma_fundamental_div_mod(p, d);
    vstd::arithmetic::div_mod::lemma_mod_bound(p, d);
    if p >= d {
        let q = p / d;
        assert(q >= 1) by (nonlinear_arith)
            requires
                p == d * q + p % d,
                0 <= p % d < d,
                p >= d,
                d > 0,
        ;
        assert(p - d == (q - 1) * d + p % d) by (nonlinear_arith)
            requires
                p == d * q + p % d,
        ;
        vstd::arithmetic::div_mod::lemma_fundamental_div_mod_converse(p - d, d, q - 1, p % d);
    } else {
        vstd::arithmetic::div_mod::lemma_fundamental_div_mod_converse(p, d, 0, p);
    }
}

/// The walking part of a converter: the two anchors and the exact position.
#[derive(Clone, Copy, Debug)]
pub struct Stepper {
    left: u32,
    right: u32,
    phase: u64,
    rate_in: u32,
    rate_out: u32,
}

impl View for Stepper {
    type V = Position;

    closed spec fn view(&self) -> Position {
        Position {
            left: self.left,
            right: self.right,
            phase: self.phase as nat,
            rate_in: self.rate_in as nat,
            rate_out: self.rate_out as nat,
        }
    }
}

impl Stepper {
    #[verifier::type_invariant]
    spec fn well_formed(self) -> bool {
        self@.wf()
    }

    /// A stepper at the start of a stream from `rate_in` Hz to `rate_out` Hz,
    /// or nothing where a rate is zero.
    pub fn new(rate_in: u32, rate_out: u32) -> (made: Option<Stepper>)
        ensures
            made is Some <==> rate_in > 0 && rate_out > 0,
            made matches Some(stepper) ==> stepper@ == Position::start(rate_in, rate_out),
    {
        if rate_in == 0 || rate_out == 0 {
            None
        } else {
            Some(Stepper { left: SILENCE, right: SILENCE, phase: 0, rate_in, rate_out })
        }
    }

    /// Whether a source sample must be pulled before the next output.
    pub fn is_due(&self) -> (due: bool)
        ensures
            due == self@.is_due(),
            self@.wf(),
    {
        proof {
            use_type_invariant(self);
        }
        self.phase >= self.rate_out as u64
    }

    /// Takes in the next source sample where one is due: it becomes the newer
    /// anchor, and the position is one source sample less ahead. Where none
    /// is due, nothing changes and the sample is not taken.
    pub fn advance(&mut self, sample: u32) -> (taken: bool)
        ensures
            taken == old(self)@.is_due(),
            taken ==> final(self)@ == old(self)@.pull(sample),
            !taken ==> final(self)@ == old(self)@,
    {
        proof {
            use_type_invariant(&*self);
        }
        if self.phase >= self.rate_out as u64 {
            self.left = self.right;
            self.right = sample;
            self.phase = self.phase - self.rate_out as u64;
            true
        } else {
            false
        }
    }

    /// Hands out the output at the position and walks one step on; nothing,
    /// and no step, while a source sample is due.
    pub fn emit(&mut self) -> (emitted: Option<Blend>)
        ensures
            emitted is Some <==> !old(self)@.is_due(),
            emitted matches Some(blend) ==> blend == old(self)@.blend() && blend.wf()
                && final(self)@ == old(self)@.emit(),
            emitted is None ==> final(self)@ == old(self)@,
    {
        proof {
            use_type_invariant(&*self);
        }
        if self.phase >= self.rate_out as u64 {
            None
        } else {
            let blend = Blend {
                left: self.left,
                right: self.right,
                num: self.phase as u32,
                den: self.rate_out,
            };
            self.phase = self.phase + self.rate_in as u64;
            Some(blend)
        }
    }
}

/// A converter from the rate of a source to the rate of its output.
pub struct Resampler {
    source: SampleSource,
    stepper: Stepper,
}

impl View for Resampler {
    type V = Position;

    closed spec fn view(&self) -> Position {
        self.stepper@
    }
}

impl Resampler {
    /// A converter that pulls from `source`, sampled at `source_hz`, and puts
    /// out at `target_hz`; nothing where a rate is zero.
    pub fn from_hz_to_hz(
        source: SampleSource,
        source_hz: u32,
        target_hz: u32,
    ) -> (made: Option<Resampler>)
        ensures
            made is Some <==> source_hz > 0 && target_hz > 0,
            made matches Some(resampler) ==> resampler@ == Position::start(source_hz, target_hz),
    {
        match Stepper::new(source_hz, target_hz) {
            Some(stepper) => Some(Resampler { source, stepper }),
            None => None,
        }
    }

    /// The next output. Pulls from the source as many samples as the walk
    /// has passed, each becoming the newer anchor in turn, then hands out the
    /// blend at the position and walks one step on. Never waits: a starved
    /// source gives silence.
    pub fn next(&mut self) -> (blend: Blend)
        ensures
            old(self)@.yields(final(self)@, blend),
            blend.wf(),
    {
        let ghost start = self.stepper@;
        let ghost mut pulled: Seq<u32> = Seq::empty();
        proof {
            use_type_invariant(&self.stepper);
        }
        while self.stepper.is_due()
            invariant
                self.stepper@ == start.pull_all(pulled),
                self.stepper@.rate_out == start.rate_out,
                start.rate_out > 0,
                pulled.len() + self.stepper@.due() == start.due(),
            decreases self.stepper@.phase,
        {
            let sample = self.source.next();
            proof {
                lemma_due_counts_pulls(self.stepper@, sample);
                assert(pulled.push(sample).drop_last() =~= pulled);
                pulled = pulled.push(sample);
            }
            let _ = self.stepper.advance(sample);
        }
        proof {
            lemma_due_counts_pulls(self.stepper@, SILENCE);
        }
        match self.stepper.emit() {
            Some(blend) => blend,
            None => vstd::pervasive::unreached(),
        }
    }
}

} // verus!
