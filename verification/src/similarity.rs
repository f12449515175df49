//! The similarity scorer: cosine similarity between two equal-length
//! embedding vectors.
//!
//! Embeddings are held in fixed-point form: each coordinate is an integer
//! count of steps of 1/32768, so a model coordinate in `[-1, 1]` maps to an
//! integer in `[-32768, 32768]`. The cosine similarity of `a` and `b` is
//! `dot(a,b) / (‖a‖·‖b‖)`, an irrational number in general, so a score is
//! kept exactly as the pair of its numerator `dot(a,b)` and the square of its
//! denominator `‖a‖²·‖b‖²`; every question the router asks of a score
//! (comparison against a rational threshold) is decided exactly in integer
//! arithmetic on that pair.
//!
//! A zero vector has no direction, so its similarity to anything is taken to
//! be zero, uniformly (represented as numerator 0 over denominator 1).
//! Comparing vectors of different lengths is a contract violation and fails
//! with `DimensionMismatch`.

use vstd::prelude::*;

verus! {

use crate::errors::AgentError;

/// Largest magnitude of one fixed-point coordinate (one whole unit).
pub const COORD_LIMIT: i64 = 32768;

/// Largest number of coordinates in one embedding.
pub const DIM_LIMIT: usize = 65536;

/// Largest magnitude a dot product of two in-range embeddings can reach:
/// `COORD_LIMIT * COORD_LIMIT * DIM_LIMIT`.
pub const DOT_LIMIT: i128 = 70368744177664;

/// Largest value `‖a‖²·‖b‖²` can reach: `DOT_LIMIT * DOT_LIMIT`.
pub const NORM_SQ_PRODUCT_LIMIT: i128 = 70368744177664 * 70368744177664;

/// Largest denominator of a similarity threshold.
pub const THRESHOLD_DEN_LIMIT: i64 = 1024;

/// The mathematical dot product of two integer vectors
/// (zero past the end of the shorter one).
pub open spec fn dot_product(a: Seq<int>, b: Seq<int>) -> int
    decreases a.len(),
{
    if a.len() == 0 || b.len() == 0 {
        0
    } else {
        dot_product(a.drop_last(), b.drop_last()) + a.last() * b.last()
    }
}

/// The squared Euclidean norm of an integer vector.
pub open spec fn norm_sq(a: Seq<int>) -> int {
    dot_product(a, a)
}

/// A fixed-length embedding vector in fixed-point form.
#[derive(Debug, Clone)]
pub struct Embedding {
    pub coords: Vec<i64>,
}

impl View for Embedding {
    type V = Seq<int>;

    open spec fn view(&self) -> Seq<int> {
        self.coords@.map(|_i: int, c: i64| c as int)
    }
}

/// A coordinate vector an `Embedding` may hold: non-empty, of bounded
/// length, every coordinate within one unit.
pub open spec fn valid_coords(s: Seq<i64>) -> bool {
    &&& 1 <= s.len() <= DIM_LIMIT
    &&& forall|i: int| 0 <= i < s.len() ==> -COORD_LIMIT <= #[trigger] s[i] <= COORD_LIMIT
}

impl Embedding {
    /// Well-formedness: the invariant every `Embedding` in use satisfies.
    pub open spec fn wf(&self) -> bool {
        valid_coords(self.coords@)
    }

    /// Builds an embedding from raw fixed-point coordinates, rejecting a
    /// vector that is empty, too long, or out of range in any coordinate.
    pub fn from_coords(coords: Vec<i64>) -> (r: Option<Embedding>)
        ensures
            r is Some <==> valid_coords(coords@),
            r matches Some(e) ==> e.coords@ == coords@ && e.wf(),
    {
        if coords.len() < 1 || coords.len() > DIM_LIMIT {
            return None;
        }
        let mut i: usize = 0;
        while i < coords.len()
            invariant
                i <= coords.len(),
                forall|j: int|
                    0 <= j < i ==> -COORD_LIMIT <= #[trigger] coords@[j] <= COORD_LIMIT,
            decreases coords.len() - i,
        {
            let c = coords[i];
            if c < -COORD_LIMIT || c > COORD_LIMIT {
                return None;
            }
            i += 1;
        }
        Some(Embedding { coords })
    }

    /// The number of coordinates.
    pub fn len(&self) -> (r: usize)
        ensures
            r == self@.len(),
    {
        self.coords.len()
    }
}

/// An exactly represented cosine-similarity score: the similarity equals
/// `dot / sqrt(norm_sq_product)`.
#[derive(Debug, Clone, Copy, PartialEq, Eq, Structural)]
pub struct Similarity {
    /// The dot product of the two vectors (zero under the zero-norm policy).
    pub dot: i128,
    /// The product of the two squared norms (one under the zero-norm policy).
    pub norm_sq_product: i128,
}

impl Similarity {
    /// Well-formedness: the denominator is positive, both parts are within
    /// the bounds that in-range embeddings can produce, and the score lies
    /// in `[-1, 1]`: `dot² <= ‖a‖²·‖b‖²`.
    pub open spec fn wf(&self) -> bool {
        &&& 1 <= self.norm_sq_product <= NORM_SQ_PRODUCT_LIMIT
        &&& -DOT_LIMIT <= self.dot <= DOT_LIMIT
        &&& (self.dot as int) * (self.dot as int) <= self.norm_sq_product as int
    }
}

/// The numerator of the similarity of `a` and `b`: their dot product, or
/// zero when either vector has zero norm.
pub open spec fn spec_sim_dot(a: Seq<int>, b: Seq<int>) -> int {
    if norm_sq(a) == 0 || norm_sq(b) == 0 {
        0
    } else {
        dot_product(a, b)
    }
}

/// The squared denominator of the similarity of `a` and `b`: the product of
/// their squared norms, or one when either vector has zero norm.
pub open spec fn spec_sim_nsp(a: Seq<int>, b: Seq<int>) -> int {
    if norm_sq(a) == 0 || norm_sq(b) == 0 {
        1
    } else {
        norm_sq(a) * norm_sq(b)
    }
}

/// A similarity threshold, the exact rational `num / den`.
#[derive(Debug, Clone, Copy, PartialEq, Eq, Structural)]
pub struct Threshold {
    pub num: i64,
    pub den: i64,
}

impl Threshold {
    /// Well-formedness: a positive bounded denominator and a value in
    /// `[-1, 1]`.
    pub open spec fn wf(&self) -> bool {
        &&& 1 <= self.den <= THRESHOLD_DEN_LIMIT
        &&& -self.den <= self.num <= self.den
    }

    /// Builds the threshold `num / den`, rejecting a denominator that is not
    /// in `1..=1024` and a value outside `[-1, 1]`.
    pub fn new(num: i64, den: i64) -> (r: Option<Threshold>)
        ensures
            r is Some <==> (1 <= den <= THRESHOLD_DEN_LIMIT && -den <= num <= den),
            r matches Some(t) ==> t.num == num && t.den == den && t.wf(),
    {
        if 1 <= den && den <= THRESHOLD_DEN_LIMIT && -den <= num && num <= den {
            Some(Threshold { num, den })
        } else {
            None
        }
    }
}

impl Default for Threshold {
    /// The recommended default threshold, one half.
    fn default() -> (r: Threshold)
        ensures
            r.num == 1 && r.den == 2,
            r.wf(),
    {
        Threshold { num: 1, den: 2 }
    }
}

/// Whether the similarity `dot / sqrt(nsp)` strictly exceeds the rational
/// `num / den`, decided in integer arithmetic (`den >= 1`, `nsp >= 1`):
/// the comparison is multiplied through by `den · sqrt(nsp) > 0` and then,
/// according to the signs, squared.
pub open spec fn spec_exceeds(dot: int, nsp: int, num: int, den: int) -> bool {
    if num >= 0 {
        dot * den > 0 && (dot * den) * (dot * den) > (num * num) * nsp
    } else {
        dot * den >= 0 || (dot * den) * (dot * den) < (num * num) * nsp
    }
}

/// The cosine similarity of two embeddings, exactly.
///
/// Fails with `DimensionMismatch` if and only if the lengths differ; a zero
/// vector on either side yields the zero score.
pub fn cosine_similarity(a: &Embedding, b: &Embedding) -> (r: Result<Similarity, AgentError>)
    requires
        a.wf(),
        b.wf(),
    ensures
        r is Ok <==> a@.len() == b@.len(),
        r is Err ==> (r matches Err(AgentError::DimensionMismatch)),
        r matches Ok(s) ==> {
            &&& s.dot as int == spec_sim_dot(a@, b@)
            &&& s.norm_sq_product as int == spec_sim_nsp(a@, b@)
            &&& s.wf()
        },
{
    let n = a.coords.len();
    if n != b.coords.len() {
        return Err(AgentError::DimensionMismatch);
    }
    let mut dp: i128 = 0;
    let mut na: i128 = 0;
    let mut nb: i128 = 0;
    let mut i: usize = 0;
    while i < n
        invariant
            i <= n,
            n == a@.len(),
            n == b@.len(),
            n <= DIM_LIMIT,
            a.wf(),
            b.wf(),
            dp as int == dot_product(a@.take(i as int), b@.take(i as int)),
            na as int == norm_sq(a@.take(i as int)),
            nb as int == norm_sq(b@.take(i as int)),
            -(i as int) * 1073741824 <= dp as int <= (i as int) * 1073741824,
            0 <= na as int <= (i as int) * 1073741824,
            0 <= nb as int <= (i as int) * 1073741824,
        decreases n - i,
    {
        let x = a.coords[i];
        let y = b.coords[i];
        proof {
            assert(a@[i as int] == x as int);
            assert(b@[i as int] == y as int);
            assert(-COORD_LIMIT <= a.coords@[i as int] <= COORD_LIMIT);
            assert(-COORD_LIMIT <= b.coords@[i as int] <= COORD_LIMIT);
            assert(-1073741824 <= (x as int) * (y as int) <= 1073741824) by (nonlinear_arith)
                requires
                    -32768 <= x as int <= 32768,
                    -32768 <= y as int <= 32768,
            ;
            assert(0 <= (x as int) * (x as int) <= 1073741824) by (nonlinear_arith)
                requires
                    -32768 <= x as int <= 32768,
            ;
            assert(0 <= (y as int) * (y as int) <= 1073741824) by (nonlinear_arith)
                requires
                    -32768 <= y as int <= 32768,
            ;
            assert(a@.take(i + 1).drop_last() =~= a@.take(i as int));
            assert(b@.take(i + 1).drop_last() =~= b@.take(i as int));
            assert(a@.take(i + 1).last() == x as int);
            assert(b@.take(i + 1).last() == y as int);
        }
        dp = dp + (x as i128) * (y as i128);
        na = na + (x as i128) * (x as i128);
        nb = nb + (y as i128) * (y as i128);
        i += 1;
    }
    proof {
        assert(a@.take(n as int) =~= a@);
        assert(b@.take(n as int) =~= b@);
    }
    if na == 0 || nb == 0 {
        return Ok(Similarity { dot: 0, norm_sq_product: 1 });
    }
    proof {
        lemma_cauchy_schwarz(a@, b@);
        assert(1 <= (na as int) * (nb as int) <= NORM_SQ_PRODUCT_LIMIT as int) by (nonlinear_arith)
            requires
                1 <= na as int <= DOT_LIMIT as int,
                1 <= nb as int <= DOT_LIMIT as int,
                NORM_SQ_PRODUCT_LIMIT as int == (DOT_LIMIT as int) * (DOT_LIMIT as int),
        ;
    }
    Ok(Similarity { dot: dp, norm_sq_product: na * nb })
}

/// Whether a score strictly exceeds a threshold, decided exactly.
pub fn exceeds_threshold(s: &Similarity, t: &Threshold) -> (r: bool)
    requires
        s.wf(),
        t.wf(),
    ensures
        r == spec_exceeds(s.dot as int, s.norm_sq_product as int, t.num as int, t.den as int),
{
    proof {
        assert(-72057594037927936 <= (s.dot as int) * (t.den as int) <= 72057594037927936)
            by (nonlinear_arith)
            requires
                -DOT_LIMIT as int <= s.dot as int <= DOT_LIMIT as int,
                1 <= t.den as int <= 1024,
                DOT_LIMIT as int == 70368744177664,
        ;
    }
    let l: i128 = s.dot * (t.den as i128);
    proof {
        assert(0 <= (l as int) * (l as int)
            <= 5192296858534827628530496329220096) by (nonlinear_arith)
            requires
                -72057594037927936 <= l as int <= 72057594037927936,
        ;
        assert(NORM_SQ_PRODUCT_LIMIT == 4951760157141521099596496896);
        assert(0 <= ((t.num as int) * (t.num as int)) * (s.norm_sq_product as int)
            <= 5192296858534827628530496329220096) by (nonlinear_arith)
            requires
                -1024 <= t.num as int <= 1024,
                1 <= s.norm_sq_product as int <= 4951760157141521099596496896,
        ;
        assert(0 <= (t.num as int) * (t.num as int) <= 1048576) by (nonlinear_arith)
            requires
                -1024 <= t.num as int <= 1024,
        ;
    }
    let m: i128 = ((t.num as i128) * (t.num as i128)) * s.norm_sq_product;
    if t.num >= 0 {
        l > 0 && l * l > m
    } else {
        l >= 0 || l * l < m
    }
}

/// The squared comparison agrees with the plain one wherever the root is
/// exact: when the squared denominator is `s²`, a score strictly exceeds
/// `num / den` exactly when `dot · den > num · s`.
pub proof fn lemma_exceeds_with_integer_norm(dot: int, s: int, num: int, den: int)
    requires
        s >= 1,
        den >= 1,
    ensures
        spec_exceeds(dot, s * s, num, den) <==> dot * den > num * s,
{
    if num >= 0 {
        if dot * den > num * s {
            assert(dot * den > 0) by (nonlinear_arith)
                requires
                    dot * den > num * s,
                    num >= 0,
                    s >= 1,
            ;
            assert((dot * den) * (dot * den) > (num * num) * (s * s)) by (nonlinear_arith)
                requires
                    dot * den > num * s,
                    num >= 0,
                    s >= 0,
            ;
        }
        if dot * den > 0 && (dot * den) * (dot * den) > (num * num) * (s * s) {
            assert(dot * den > num * s) by (nonlinear_arith)
                requires
                    dot * den > 0,
                    (dot * den) * (dot * den) > (num * num) * (s * s),
                    num >= 0,
                    s >= 0,
            ;
        }
    } else {
        if dot * den >= 0 {
            assert(dot * den > num * s) by (nonlinear_arith)
                requires
                    dot * den >= 0,
                    num < 0,
                    s >= 1,
            ;
        } else {
            if dot * den > num * s {
                assert((dot * den) * (dot * den) < (num * num) * (s * s)) by (nonlinear_arith)
                    requires
                        dot * den < 0,
                        dot * den > num * s,
                        num < 0,
                        s >= 1,
                ;
            }
            if (dot * den) * (dot * den) < (num * num) * (s * s) {
                assert(dot * den > num * s) by (nonlinear_arith)
                    requires
                        dot * den < 0,
                        (dot * den) * (dot * den) < (num * num) * (s * s),
                        num < 0,
                        s >= 1,
                ;
            }
        }
    }
}

/// The squared norm of a vector is never negative.
pub proof fn lemma_norm_sq_nonneg(a: Seq<int>)
    ensures
        norm_sq(a) >= 0,
    decreases a.len(),
{
    if a.len() > 0 {
        lemma_norm_sq_nonneg(a.drop_last());
        assert(a.last() * a.last() >= 0) by (nonlinear_arith);
    }
}

/// The dot product does not depend on the order of its arguments.
pub proof fn lemma_dot_product_symmetric(a: Seq<int>, b: Seq<int>)
    ensures
        dot_product(a, b) == dot_product(b, a),
    decreases a.len(),
{
    if a.len() > 0 && b.len() > 0 {
        lemma_dot_product_symmetric(a.drop_last(), b.drop_last());
        assert(a.last() * b.last() == b.last() * a.last()) by (nonlinear_arith);
    }
}

/// If `p` is non-negative and its square is at least the square of `q`,
/// then `p` is at least `q`.
proof fn lemma_sqrt_mono(p: int, q: int)
    requires
        p >= 0,
        p * p >= q * q,
    ensures
        p >= q,
{
    if q > p {
        assert(q * q > p * p) by (nonlinear_arith)
            requires
                q > p,
                p >= 0,
        ;
    }
}

/// One step of the Cauchy–Schwarz induction: extending both vectors by one
/// coordinate preserves `dot² <= ‖a‖²·‖b‖²`.
proof fn lemma_cauchy_schwarz_step(d: int, a: int, b: int, x: int, y: int)
    requires
        a >= 0,
        b >= 0,
        d * d <= a * b,
    ensures
        (d + x * y) * (d + x * y) <= (a + x * x) * (b + y * y),
{
    assert((a * (y * y) + b * (x * x)) * (a * (y * y) + b * (x * x)) >= 4 * (a * b) * ((x * x) * (y
        * y))) by (nonlinear_arith);
    assert(4 * (a * b) * ((x * x) * (y * y)) >= 4 * (d * d) * ((x * x) * (y * y)))
        by (nonlinear_arith)
        requires
            d * d <= a * b,
    ;
    assert((2 * (d * (x * y))) * (2 * (d * (x * y))) == 4 * (d * d) * ((x * x) * (y * y)))
        by (nonlinear_arith);
    assert(a * (y * y) + b * (x * x) >= 0) by (nonlinear_arith)
        requires
            a >= 0,
            b >= 0,
    ;
    lemma_sqrt_mono(a * (y * y) + b * (x * x), 2 * (d * (x * y)));
    assert((d + x * y) * (d + x * y) == d * d + 2 * (d * (x * y)) + (x * x) * (y * y))
        by (nonlinear_arith);
    assert((a + x * x) * (b + y * y) == a * b + a * (y * y) + b * (x * x) + (x * x) * (y * y))
        by (nonlinear_arith);
}

/// Cauchy–Schwarz: the square of the dot product of two equal-length
/// vectors is at most the product of their squared norms.
pub proof fn lemma_cauchy_schwarz(a: Seq<int>, b: Seq<int>)
    requires
        a.len() == b.len(),
    ensures
        dot_product(a, b) * dot_product(a, b) <= norm_sq(a) * norm_sq(b),
    decreases a.len(),
{
    if a.len() > 0 {
        let a1 = a.drop_last();
        let b1 = b.drop_last();
        lemma_cauchy_schwarz(a1, b1);
        lemma_norm_sq_nonneg(a1);
        lemma_norm_sq_nonneg(b1);
        lemma_cauchy_schwarz_step(
            dot_product(a1, b1),
            norm_sq(a1),
            norm_sq(b1),
            a.last(),
            b.last(),
        );
    }
}

/// Similarity is symmetric: both parts of the score of `(a, b)` equal the
/// corresponding parts of the score of `(b, a)`.
pub proof fn lemma_similarity_symmetric(a: Seq<int>, b: Seq<int>)
    ensures
        spec_sim_dot(a, b) == spec_sim_dot(b, a),
        spec_sim_nsp(a, b) == spec_sim_nsp(b, a),
{
    lemma_dot_product_symmetric(a, b);
    assert(norm_sq(a) * norm_sq(b) == norm_sq(b) * norm_sq(a)) by (nonlinear_arith);
}

/// The similarity of a nonzero vector with itself is exactly one: its
/// numerator is positive and its square equals the squared denominator.
pub proof fn lemma_self_similarity_is_one(a: Seq<int>)
    requires
        norm_sq(a) != 0,
    ensures
        spec_sim_dot(a, a) > 0,
        spec_sim_dot(a, a) * spec_sim_dot(a, a) == spec_sim_nsp(a, a),
{
    lemma_norm_sq_nonneg(a);
}

/// Every similarity score lies in `[-1, 1]`: the square of its numerator is
/// at most its squared denominator.
pub proof fn lemma_similarity_in_unit_range(a: Seq<int>, b: Seq<int>)
    requires
        a.len() == b.len(),
    ensures
        spec_sim_dot(a, b) * spec_sim_dot(a, b) <= spec_sim_nsp(a, b),
{
    if norm_sq(a) == 0 || norm_sq(b) == 0 {
    } else {
        lemma_cauchy_schwarz(a, b);
    }
}

} // verus!
