//! What holds of every stream that a converter walks.
//!
//! The source is an endless stream of samples, given as a function of the
//! index. [`run`] replays a number of outputs with the specification
//! functions of [`Position`], pulling from the stream in order. The laws say
//! where each output lies: output `k` is the point `k * rate_in / rate_out`
//! of the source, two samples late, the two samples being the silent anchors
//! that the walk starts from.

use crate::resampler::Blend;
use crate::resampler::Position;
use crate::source::SILENCE;
use vstd::arithmetic::div_mod::lemma_fundamental_div_mod;
use vstd::arithmetic::div_mod::lemma_fundamental_div_mod_converse;
use vstd::arithmetic::div_mod::lemma_mod_bound;
use vstd::prelude::*;

verus! {

/// Where a number of outputs has led.
pub struct Walk {
    /// The position after the last output.
    pub position: Position,
    /// The outputs, in order.
    pub blends: Seq<Blend>,
    /// How many source samples were pulled.
    pub consumed: nat,
}

/// The sample at `index` of the stream; silence before its start.
pub open spec fn anchor(source: spec_fn(nat) -> u32, index: int) -> u32 {
    if index < 0 {
        SILENCE
    } else {
        source(index as nat)
    }
}

/// The `count` samples of the stream from `from` on.
pub open spec fn upcoming(source: spec_fn(nat) -> u32, from: nat, count: nat) -> Seq<u32> {
    Seq::new(count, |i: int| source((from + i) as nat))
}

/// The walk from `start` through `outputs` outputs, pulling from `source`.
pub open spec fn run(start: Position, source: spec_fn(nat) -> u32, outputs: nat) -> Walk
    decreases outputs,
{
    if outputs == 0 {
        Walk { position: start, blends: Seq::empty(), consumed: 0 }
    } else {
        let before = run(start, source, (outputs - 1) as nat);
        let pulled = upcoming(source, before.consumed, before.position.due());
        let at = before.position.pull_all(pulled);
        Walk {
            position: at.emit(),
            blends: before.blends.push(at.blend()),
            consumed: before.consumed + pulled.len(),
        }
    }
}

/// The output that lies `walked` parts of `1 / rate_out` into the stream.
pub open spec fn blend_at(source: spec_fn(nat) -> u32, walked: nat, rate_out: u32) -> Blend {
    let whole = (walked / rate_out as nat) as int;
    Blend {
        left: anchor(source, whole - 2),
        right: anchor(source, whole - 1),
        num: (walked % rate_out as nat) as u32,
        den: rate_out,
    }
}

/// Taking whole multiples of the divisor off a number takes as many off its
/// quotient and leaves the remainder.
proof fn lemma_quotient_less_multiples(x: int, d: int, c: int)
    requires
        d > 0,
        x >= c * d,
        c >= 0,
    ensures
        (x - c * d) / d == x / d - c,
        (x - c * d) % d == x % d,
        x / d >= c,
{
    lemma_fundamental_div_mod(x, d);
    lemma_mod_bound(x, d);
    let q = x / d;
    let r = x % d;
    assert(x - c * d == (q - c) * d + r) by (nonlinear_arith)
        requires
            x == d * q + r,
    ;
    lemma_fundamental_div_mod_converse(x - c * d, d, q - c, r);
    assert(q - c >= 0) by (nonlinear_arith)
        requires
            (q - c) * d + r >= 0,
            0 <= r < d,
            d > 0,
    ;
}

/// Pulling samples that were due: the walk is that many source samples
/// less ahead, and the anchors are the last two samples pulled, or what the
/// anchors were where fewer were pulled.
pub proof fn lemma_pull_all(position: Position, pulled: Seq<u32>)
    requires
        position.rate_out > 0,
        pulled.len() * position.rate_out <= position.phase,
    ensures
        position.pull_all(pulled).phase == position.phase - pulled.len() * position.rate_out,
        position.pull_all(pulled).rate_in == position.rate_in,
        position.pull_all(pulled).rate_out == position.rate_out,
        position.pull_all(pulled).right == if pulled.len() >= 1 {
            pulled[pulled.len() - 1]
        } else {
            position.right
        },
        position.pull_all(pulled).left == if pulled.len() >= 2 {
            pulled[pulled.len() - 2]
        } else if pulled.len() == 1 {
            position.right
        } else {
            position.left
        },
    decreases pulled.len(),
{
    if pulled.len() > 0 {
        let fewer = pulled.drop_last();
        let d = position.rate_out as int;
        assert(fewer.len() * d == pulled.len() * d - d) by (nonlinear_arith)
            requires
                fewer.len() == pulled.len() - 1,
        ;
        lemma_pull_all(position, fewer);
    }
}

/// The state of a walk after any number of outputs.
proof fn lemma_walk(rate_in: u32, rate_out: u32, source: spec_fn(nat) -> u32, outputs: nat)
    requires
        rate_in > 0,
        rate_out > 0,
    ensures
        ({
            let walk = run(Position::start(rate_in, rate_out), source, outputs);
            &&& walk.blends.len() == outputs
            &&& walk.position.rate_in == rate_in
            &&& walk.position.rate_out == rate_out
            &&& walk.consumed * rate_out <= outputs * rate_in
            &&& walk.position.phase == outputs * rate_in - walk.consumed * rate_out
            &&& outputs > 0 ==> walk.consumed == ((outputs - 1) * rate_in) / (rate_out as int)
            &&& outputs == 0 ==> walk.consumed == 0
            &&& walk.position.right == anchor(source, walk.consumed - 1)
            &&& walk.position.left == anchor(source, walk.consumed - 2)
            &&& forall|k: int|
                0 <= k < outputs ==> #[trigger] walk.blends[k] == blend_at(
                    source,
                    (k * rate_in) as nat,
                    rate_out,
                )
        }),
    decreases outputs,
{
    let start = Position::start(rate_in, rate_out);
    if outputs > 0 {
        let n = (outputs - 1) as nat;
        lemma_walk(rate_in, rate_out, source, n);
        let before = run(start, source, n);
        let walk = run(start, source, outputs);
        let d = rate_out as int;
        let walked = n * rate_in;
        let c = before.consumed as int;
        assert(walked >= 0) by (nonlinear_arith)
            requires
                walked == n * rate_in,
        ;
        lemma_quotient_less_multiples(walked, d, c);
        lemma_fundamental_div_mod(walked, d);
        lemma_mod_bound(walked, d);
        let due = before.position.due();
        assert(due == walked / d - c);
        let pulled = upcoming(source, before.consumed, due);
        assert(due * d <= before.position.phase) by (nonlinear_arith)
            requires
                due == walked / d - c,
                before.position.phase == walked - c * d,
                walked == d * (walked / d) + walked % d,
                0 <= walked % d,
        ;
        lemma_pull_all(before.position, pulled);
        let at = before.position.pull_all(pulled);
        assert(at.phase == walked % d) by (nonlinear_arith)
            requires
                at.phase == before.position.phase - due * d,
                due == walked / d - c,
                before.position.phase == walked - c * d,
                walked == d * (walked / d) + walked % d,
        ;
        assert(walk.consumed == walked / d);
        assert(walk.consumed * rate_out <= outputs * rate_in && walk.position.phase == outputs
            * rate_in - walk.consumed * rate_out) by (nonlinear_arith)
            requires
                walk.position.phase == walked % d + rate_in,
                walk.consumed == walked / d,
                walked == d * (walked / d) + walked % d,
                walked == n * rate_in,
                outputs == n + 1,
                d == rate_out,
                0 <= walked % d,
        ;
        assert(at.blend() == blend_at(source, walked as nat, rate_out));
        assert forall|k: int| 0 <= k < outputs implies #[trigger] walk.blends[k] == blend_at(
            source,
            (k * rate_in) as nat,
            rate_out,
        ) by {
            if k < n {
                assert(walk.blends[k] == before.blends[k]);
            }
        }
    }
}

/// Output `k` of a stream lies `k * rate_in / rate_out` source samples into
/// it, two samples late: its anchors are the two source samples before that
/// point (silence before the start of the stream), its fraction is what is
/// left of the quotient. By then the walk has pulled exactly the whole part
/// of that quotient.
pub proof fn lemma_output_lies_on_the_source_timeline(
    rate_in: u32,
    rate_out: u32,
    source: spec_fn(nat) -> u32,
    outputs: nat,
)
    requires
        rate_in > 0,
        rate_out > 0,
    ensures
        run(Position::start(rate_in, rate_out), source, outputs).blends.len() == outputs,
        forall|k: int|
            0 <= k < outputs ==> #[trigger] run(
                Position::start(rate_in, rate_out),
                source,
                outputs,
            ).blends[k] == blend_at(source, (k * rate_in) as nat, rate_out),
        forall|k: int|
            0 <= k < outputs ==> (#[trigger] run(
                Position::start(rate_in, rate_out),
                source,
                outputs,
            ).blends[k]).wf(),
        outputs > 0 ==> run(Position::start(rate_in, rate_out), source, outputs).consumed == ((
        outputs - 1) * rate_in) / (rate_out as int),
{
    lemma_walk(rate_in, rate_out, source, outputs);
    let walk = run(Position::start(rate_in, rate_out), source, outputs);
    assert forall|k: int| 0 <= k < outputs implies (#[trigger] walk.blends[k]).wf() by {
        let walked = k * rate_in;
        assert(walked >= 0) by (nonlinear_arith)
            requires
                walked == k * rate_in,
                k >= 0,
        ;
        lemma_mod_bound(walked, rate_out as int);
    }
}

/// With equal rates the converter hands the source through: after the two
/// silent anchors of the start, every output is one source sample, exactly
/// as it was pulled, each once and in order; and one sample is pulled for
/// every output but the first.
pub proof fn lemma_equal_rates_are_the_identity(
    rate: u32,
    source: spec_fn(nat) -> u32,
    outputs: nat,
)
    requires
        rate > 0,
    ensures
        run(Position::start(rate, rate), source, outputs).blends.len() == outputs,
        forall|k: int|
            0 <= k < outputs ==> (#[trigger] run(
                Position::start(rate, rate),
                source,
                outputs,
            ).blends[k]).exact_spec() == Some(anchor(source, k - 2)),
        outputs > 0 ==> run(Position::start(rate, rate), source, outputs).consumed == outputs - 1,
{
    lemma_walk(rate, rate, source, outputs);
    let walk = run(Position::start(rate, rate), source, outputs);
    let d = rate as int;
    assert forall|k: int| 0 <= k < outputs implies (#[trigger] walk.blends[k]).exact_spec() == Some(
        anchor(source, k - 2),
    ) by {
        lemma_fundamental_div_mod_converse(k * d, d, k, 0);
    }
    if outputs > 0 {
        lemma_fundamental_div_mod_converse((outputs - 1) * d, d, outputs - 1, 0);
    }
}

} // verus!
