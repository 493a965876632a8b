//! The model state the coordination protocol speaks about, and the codec
//! between that state and a flat parameter vector.
//!
//! The state is four segments — first-layer weights (row-major), first-layer
//! bias, second-layer weights (row-major), second-layer bias — of fixed-point
//! `i64` scalars. Flattening concatenates the segments in that fixed order.
//! Writing a vector back is deliberately tolerant: each flat position is
//! written only if the supplied vector covers it, a shorter vector updates a
//! prefix and reports success, a longer vector's excess is ignored.

use crate::params::overwrite_prefix;
use vstd::prelude::*;

verus! {

/// Fixed feature width of a batch row, and input width of the standard
/// topology.
pub const FEATURE_WIDTH: usize = 10;

/// Hidden-layer width of the standard topology.
pub const HIDDEN_SIZE: usize = 64;

/// Output width of the standard topology.
pub const OUTPUT_SIZE: usize = 1;

/// The flattened parameter count of the standard topology.
pub open spec fn standard_total_params() -> int {
    FEATURE_WIDTH as int * HIDDEN_SIZE as int + HIDDEN_SIZE as int + HIDDEN_SIZE as int
        * OUTPUT_SIZE as int + OUTPUT_SIZE as int
}

/// A two-layer model held as flat integer segments.
pub struct SimpleModel {
    /// Number of input features.
    pub input_size: usize,
    /// Number of hidden units.
    pub hidden_size: usize,
    /// Number of outputs.
    pub output_size: usize,
    /// First-layer weights, row-major, `input_size * hidden_size` entries.
    pub w1: Vec<i64>,
    /// First-layer bias, `hidden_size` entries.
    pub b1: Vec<i64>,
    /// Second-layer weights, row-major, `hidden_size * output_size` entries.
    pub w2: Vec<i64>,
    /// Second-layer bias, `output_size` entries.
    pub b2: Vec<i64>,
}

impl SimpleModel {
    /// Every segment has the length its dimensions dictate, and the whole
    /// state fits in one addressable vector.
    pub open spec fn wf(self) -> bool {
        &&& self.w1@.len() == self.input_size as int * self.hidden_size as int
        &&& self.b1@.len() == self.hidden_size as int
        &&& self.w2@.len() == self.hidden_size as int * self.output_size as int
        &&& self.b2@.len() == self.output_size as int
        &&& self.total_params() <= usize::MAX
    }

    /// The flattened state: the four segments concatenated in codec order.
    pub open spec fn flat(self) -> Seq<i64> {
        self.w1@ + self.b1@ + self.w2@ + self.b2@
    }

    /// How many scalars the flattened state holds.
    pub open spec fn total_params(self) -> int {
        self.flat().len() as int
    }

    /// Dimensions agree between two states.
    pub open spec fn same_shape(self, other: Self) -> bool {
        &&& self.input_size == other.input_size
        &&& self.hidden_size == other.hidden_size
        &&& self.output_size == other.output_size
    }

    /// A fresh model of the given dimensions with every parameter zero.
    pub fn new(input_size: usize, hidden_size: usize, output_size: usize) -> (m: Self)
        requires
            input_size * hidden_size + hidden_size + hidden_size * output_size + output_size
                <= usize::MAX,
        ensures
            m.wf(),
            m.input_size == input_size,
            m.hidden_size == hidden_size,
            m.output_size == output_size,
            m.flat() == Seq::new(
                (input_size * hidden_size + hidden_size + hidden_size * output_size
                    + output_size) as nat,
                |i: int| 0i64,
            ),
    {
        let w1 = zero_vec(input_size * hidden_size);
        let b1 = zero_vec(hidden_size);
        let w2 = zero_vec(hidden_size * output_size);
        let b2 = zero_vec(output_size);
        let m = SimpleModel { input_size, hidden_size, output_size, w1, b1, w2, b2 };
        proof {
            assert(m.flat() =~= Seq::new(
                (input_size * hidden_size + hidden_size + hidden_size * output_size
                    + output_size) as nat,
                |i: int| 0i64,
            ));
        }
        m
    }

    /// Flattens the model into one parameter vector in codec order.
    pub fn to_params_vec(&self) -> (r: Vec<i64>)
        ensures
            r@ == self.flat(),
    {
        let mut r: Vec<i64> = Vec::new();
        append_all(&mut r, &self.w1);
        append_all(&mut r, &self.b1);
        append_all(&mut r, &self.w2);
        append_all(&mut r, &self.b2);
        proof {
            assert(r@ =~= self.flat());
        }
        r
    }

    /// Writes `params` back into the segments in codec order. Only flat
    /// positions that `params` covers are written; a shorter vector updates
    /// a prefix and the rest of the state is left as it was, a longer
    /// vector's excess is ignored. No length mismatch is an error.
    pub fn from_params_vec(&mut self, params: &Vec<i64>)
        requires
            old(self).wf(),
        ensures
            final(self).wf(),
            final(self).same_shape(*old(self)),
            final(self).flat() == overwrite_prefix(old(self).flat(), params@),
    {
        let w1_len = self.w1.len();
        let b1_len = self.b1.len();
        let w2_len = self.w2.len();
        write_prefix_at(&mut self.w1, params, 0);
        write_prefix_at(&mut self.b1, params, w1_len);
        write_prefix_at(&mut self.w2, params, w1_len + b1_len);
        write_prefix_at(&mut self.b2, params, w1_len + b1_len + w2_len);
        proof {
            assert(self.flat() =~= overwrite_prefix(old(self).flat(), params@));
        }
    }
}

/// Law: loading a model's own flattened vector back leaves every parameter
/// unchanged, whenever the vector length equals the model's parameter count.
pub proof fn lemma_unflatten_roundtrip(m0: SimpleModel, m1: SimpleModel)
    requires
        m0.wf(),
        m1.wf(),
        m1.same_shape(m0),
        m1.flat() == overwrite_prefix(m0.flat(), m0.flat()),
    ensures
        m1.w1@ == m0.w1@,
        m1.b1@ == m0.b1@,
        m1.w2@ == m0.w2@,
        m1.b2@ == m0.b2@,
        m1.flat() == m0.flat(),
{
    assert(m1.flat() =~= m0.flat());
    let n1 = m0.w1@.len() as int;
    let n2 = n1 + m0.b1@.len() as int;
    let n3 = n2 + m0.w2@.len() as int;
    assert forall|i: int| 0 <= i < m1.w1@.len() implies m1.w1@[i] == m0.w1@[i] by {
        assert(m1.flat()[i] == m1.w1@[i]);
        assert(m0.flat()[i] == m0.w1@[i]);
    }
    assert forall|i: int| 0 <= i < m1.b1@.len() implies m1.b1@[i] == m0.b1@[i] by {
        assert(m1.flat()[n1 + i] == m1.b1@[i]);
        assert(m0.flat()[n1 + i] == m0.b1@[i]);
    }
    assert forall|i: int| 0 <= i < m1.w2@.len() implies m1.w2@[i] == m0.w2@[i] by {
        assert(m1.flat()[n2 + i] == m1.w2@[i]);
        assert(m0.flat()[n2 + i] == m0.w2@[i]);
    }
    assert forall|i: int| 0 <= i < m1.b2@.len() implies m1.b2@[i] == m0.b2@[i] by {
        assert(m1.flat()[n3 + i] == m1.b2@[i]);
        assert(m0.flat()[n3 + i] == m0.b2@[i]);
    }
    assert(m1.w1@ =~= m0.w1@);
    assert(m1.b1@ =~= m0.b1@);
    assert(m1.w2@ =~= m0.w2@);
    assert(m1.b2@ =~= m0.b2@);
}

/// Law: writing a vector no longer than the parameter count rewrites exactly
/// the first `v.len()` flat positions, in codec order, and leaves every
/// later position unchanged.
pub proof fn lemma_truncated_write(m0: SimpleModel, m1: SimpleModel, v: Seq<i64>)
    requires
        m0.wf(),
        m1.wf(),
        m1.same_shape(m0),
        v.len() <= m0.total_params(),
        m1.flat() == overwrite_prefix(m0.flat(), v),
    ensures
        forall|j: int| 0 <= j < v.len() ==> m1.flat()[j] == v[j],
        forall|j: int| v.len() <= j < m0.total_params() ==> m1.flat()[j] == m0.flat()[j],
{
}

/// A fresh zero model of the standard topology.
pub fn build_model() -> (m: SimpleModel)
    ensures
        m.wf(),
        m.input_size == FEATURE_WIDTH,
        m.hidden_size == HIDDEN_SIZE,
        m.output_size == OUTPUT_SIZE,
        m.flat() == Seq::new(standard_total_params() as nat, |i: int| 0i64),
{
    let m = SimpleModel::new(FEATURE_WIDTH, HIDDEN_SIZE, OUTPUT_SIZE);
    proof {
        assert(m.flat() =~= Seq::new(standard_total_params() as nat, |i: int| 0i64));
    }
    m
}

/// A vector of `n` zero scalars.
fn zero_vec(n: usize) -> (v: Vec<i64>)
    ensures
        v@ == Seq::new(n as nat, |i: int| 0i64),
{
    let mut v: Vec<i64> = Vec::new();
    let mut i: usize = 0;
    while i < n
        invariant
            i <= n,
            v@.len() == i,
            forall|j: int| 0 <= j < i ==> v@[j] == 0i64,
        decreases n - i,
    {
        v.push(0);
        i = i + 1;
    }
    proof {
        assert(v@ =~= Seq::new(n as nat, |i: int| 0i64));
    }
    v
}

/// Appends every element of `seg` to `r`.
fn append_all(r: &mut Vec<i64>, seg: &Vec<i64>)
    ensures
        final(r)@ == old(r)@ + seg@,
{
    let mut i: usize = 0;
    while i < seg.len()
        invariant
            i <= seg.len(),
            r@ == old(r)@ + seg@.take(i as int),
        decreases seg.len() - i,
    {
        r.push(seg[i]);
        proof {
            assert(r@ =~= old(r)@ + seg@.take(i + 1 as int));
        }
        i = i + 1;
    }
    proof {
        assert(old(r)@ + seg@.take(seg@.len() as int) =~= old(r)@ + seg@);
    }
}

/// Writes `params[offset + i]` into `seg[i]` for every index the supplied
/// vector covers; indices beyond its length keep their old value.
fn write_prefix_at(seg: &mut Vec<i64>, params: &Vec<i64>, offset: usize)
    requires
        offset + old(seg)@.len() <= usize::MAX,
    ensures
        final(seg)@.len() == old(seg)@.len(),
        forall|j: int|
            0 <= j < old(seg)@.len() ==> final(seg)@[j] == (if offset + j < params@.len() {
                params@[offset + j]
            } else {
                old(seg)@[j]
            }),
{
    let n = seg.len();
    let mut i: usize = 0;
    while i < n
        invariant
            i <= n,
            n == seg@.len(),
            n == old(seg)@.len(),
            offset + n <= usize::MAX,
            forall|j: int|
                0 <= j < i ==> seg@[j] == (if offset + j < params@.len() {
                    params@[offset + j]
                } else {
                    old(seg)@[j]
                }),
            forall|j: int| i <= j < n ==> seg@[j] == old(seg)@[j],
        decreases n - i,
    {
        if offset + i < params.len() {
            let val = params[offset + i];
            seg.set(i, val);
        }
        i = i + 1;
    }
}

} // verus!
