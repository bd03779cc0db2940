//! The proof engine: what the prover and the verifier compute.

use crate::bridge::random_alphanumeric;
use crate::constants::{
    group_1024, load_exponent_1024, load_generator_1024, load_modulus_1024, load_order_1024,
};
use crate::group::{accepts, commitment_pair, response, GroupParameters};
use crate::number::BigNat;
use vstd::arithmetic::div_mod::{
    lemma_mod_add_multiples_vanish, lemma_mul_mod_noop_general, lemma_small_mod,
    lemma_sub_mod_noop,
};
use vstd::arithmetic::power::pow;
use vstd::prelude::*;

verus! {

/// Whether `c` is an ASCII letter or digit.
pub open spec fn is_alphanumeric(c: char) -> bool {
    let n = c as u32;
    (0x30 <= n <= 0x39) || (0x41 <= n <= 0x5A) || (0x61 <= n <= 0x7A)
}

/// The protocol over one group.
#[derive(Debug)]
pub struct ZKP {
    p: BigNat,
    q: BigNat,
    alpha: BigNat,
    beta: BigNat,
}

impl View for ZKP {
    type V = GroupParameters;

    closed spec fn view(&self) -> GroupParameters {
        GroupParameters { p: self.p@, q: self.q@, alpha: self.alpha@, beta: self.beta@ }
    }
}

impl ZKP {
    /// The generators `alpha` and `beta`, the modulus `p` and the order `q` of
    /// the 1024-bit reference group, in this order.
    pub fn get_constants() -> (r: (BigNat, BigNat, BigNat, BigNat))
        ensures
            r.0@ == group_1024().alpha,
            r.1@ == group_1024().beta,
            r.2@ == group_1024().p,
            r.3@ == group_1024().q,
    {
        let p = load_modulus_1024();
        let q = load_order_1024();
        let alpha = load_generator_1024();
        let exp = load_exponent_1024();
        let beta = alpha.modpow(&exp, &p);
        (alpha, beta, p, q)
    }

    /// The protocol over the group of the given generators, modulus and order.
    pub fn new(alpha: BigNat, beta: BigNat, p: BigNat, q: BigNat) -> (r: Self)
        ensures
            r@ == (GroupParameters { p: p@, q: q@, alpha: alpha@, beta: beta@ }),
    {
        ZKP { p, q, alpha, beta }
    }

    /// The pair `(alpha ^ exp mod p, beta ^ exp mod p)`.
    pub fn compute_pair(&self, exp: &BigNat) -> (r: (BigNat, BigNat))
        requires
            self@.p != 0,
        ensures
            (r.0@, r.1@) == commitment_pair(self@, exp@),
    {
        let p1 = self.alpha.modpow(exp, &self.p);
        let p2 = self.beta.modpow(exp, &self.p);
        (p1, p2)
    }

    /// The response `k - c * x` reduced by `q`, where `k` is the prover's
    /// nonce, `c` the challenge and `x` the secret. The two terms are reduced
    /// apart, and `q` is added back where their difference would be negative.
    pub fn solve(&self, k: &BigNat, c: &BigNat, x: &BigNat) -> (s: BigNat)
        requires
            self@.q != 0,
        ensures
            s@ == response(self@.q, k@, c@, x@),
            s@ < self@.q,
    {
        let cx = c.times(x);
        let k_mod_q = k.modulo(&self.q);
        let cx_mod_q = cx.modulo(&self.q);
        proof {
            let q = self.q@ as int;
            lemma_sub_mod_noop(k@ as int, cx@ as int, q);
            if k_mod_q@ >= cx_mod_q@ {
                lemma_small_mod((k_mod_q@ - cx_mod_q@) as nat, self.q@);
            } else {
                lemma_mod_add_multiples_vanish(k_mod_q@ - cx_mod_q@, q);
                lemma_small_mod((q + k_mod_q@ - cx_mod_q@) as nat, self.q@);
            }
        }
        if k_mod_q.ge(&cx_mod_q) {
            k_mod_q.minus(&cx_mod_q)
        } else {
            self.q.plus(&k_mod_q).minus(&cx_mod_q)
        }
    }

    /// Whether `r1 = alpha ^ s * y1 ^ c` and `r2 = beta ^ s * y2 ^ c` both
    /// hold modulo `p`. Both sides of both tests are reduced before they are
    /// compared, and both tests are made whatever the first one gives.
    pub fn verify(
        &self,
        r1: &BigNat,
        r2: &BigNat,
        y1: &BigNat,
        y2: &BigNat,
        c: &BigNat,
        s: &BigNat,
    ) -> (r: bool)
        requires
            self@.p != 0,
        ensures
            r == accepts(self@, r1@, r2@, y1@, y2@, c@, s@),
    {
        let cond1 = Self::balanced(&self.alpha, &self.p, r1, y1, c, s);
        let cond2 = Self::balanced(&self.beta, &self.p, r2, y2, c, s);
        cond1 && cond2
    }

    /// One of the two tests of `verify`, on one generator.
    fn balanced(g: &BigNat, p: &BigNat, r: &BigNat, y: &BigNat, c: &BigNat, s: &BigNat) -> (ok:
        bool)
        requires
            p@ != 0,
        ensures
            ok == crate::group::balances(g@, p@, r@, y@, c@, s@),
    {
        let left = r.modulo(p);
        let gs = g.modpow(s, p);
        let yc = y.modpow(c, p);
        let right = gs.times(&yc).modulo(p);
        proof {
            lemma_mul_mod_noop_general(pow(g@ as int, s@), pow(y@ as int, c@), p@ as int);
        }
        left == right
    }

    /// A random number under `bound`, which is not zero.
    pub fn generate_random_number_below(bound: &BigNat) -> (r: BigNat)
        requires
            bound@ != 0,
        ensures
            r@ < bound@,
    {
        BigNat::random_below(bound)
    }

    /// A random string of `size` ASCII letters and digits.
    pub fn generate_random_string(size: usize) -> (r: String)
        ensures
            r@.len() == size,
            forall|i: int| 0 <= i < r@.len() ==> is_alphanumeric(#[trigger] r@[i]),
    {
        random_alphanumeric(size)
    }
}

} // verus!
