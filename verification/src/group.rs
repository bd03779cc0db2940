//! The mathematics of the Chaum-Pedersen protocol: the group, what the prover
//! computes, what the verifier accepts, and why an honest prover is accepted.

use vstd::arithmetic::div_mod::{
    lemma_add_mod_noop, lemma_fundamental_div_mod, lemma_mod_bound, lemma_mod_twice,
    lemma_mul_mod_noop_general, lemma_small_mod,
};
use vstd::arithmetic::mul::lemma_mul_nonnegative;
use vstd::arithmetic::power::{
    lemma1_pow, lemma_pow_adds, lemma_pow_mod_noop, lemma_pow_multiplies, pow,
};
use vstd::prelude::*;

verus! {

/// The parameters of the group: a modulus `p`, the order `q` of the subgroup
/// in which the protocol runs, and two generators `alpha` and `beta` of it.
pub struct GroupParameters {
    pub p: nat,
    pub q: nat,
    pub alpha: nat,
    pub beta: nat,
}

/// Whether `n` is a prime number.
pub open spec fn is_prime(n: nat) -> bool {
    n >= 2 && forall|d: nat| 2 <= d < n ==> #[trigger] (n % d) != 0
}

/// Whether `g` lies in the multiplicative group modulo `p`, is not its unit,
/// and comes back to the unit when raised to `q`. For a prime `q` this says
/// that `g` generates the subgroup of order `q`.
pub open spec fn has_order(g: nat, q: nat, p: nat) -> bool {
    1 < g < p && mod_pow(g, q, p) == 1
}

/// The power `base ^ exponent`, reduced by `modulus`.
pub open spec fn mod_pow(base: nat, exponent: nat, modulus: nat) -> nat {
    (pow(base as int, exponent) % (modulus as int)) as nat
}

/// The pair `(alpha ^ e mod p, beta ^ e mod p)`: the public key where `e` is
/// the secret, the commitment where `e` is the nonce of one session.
pub open spec fn commitment_pair(g: GroupParameters, e: nat) -> (nat, nat) {
    (mod_pow(g.alpha, e, g.p), mod_pow(g.beta, e, g.p))
}

/// The prover's answer `k - c * x`, reduced by `q` to the range from 0 up to `q`.
pub open spec fn response(q: nat, k: nat, c: nat, x: nat) -> nat {
    ((k - c * x) % (q as int)) as nat
}

/// One of the verifier's two tests: `r` and `g ^ s * y ^ c` are congruent modulo `p`.
pub open spec fn balances(g: nat, p: nat, r: nat, y: nat, c: nat, s: nat) -> bool {
    r % p == (pow(g as int, s) * pow(y as int, c)) % (p as int)
}

/// What the verifier accepts: both tests hold, the one on `alpha` and the one on `beta`.
pub open spec fn accepts(
    g: GroupParameters,
    r1: nat,
    r2: nat,
    y1: nat,
    y2: nat,
    c: nat,
    s: nat,
) -> bool {
    balances(g.alpha, g.p, r1, y1, c, s) && balances(g.beta, g.p, r2, y2, c, s)
}

impl GroupParameters {
    /// Parameters that define a group for the protocol: `p` and `q` are prime,
    /// `q` divides `p - 1`, and `alpha` and `beta` both generate the subgroup
    /// of order `q`.
    pub open spec fn valid(self) -> bool {
        &&& is_prime(self.p)
        &&& is_prime(self.q)
        &&& (self.p - 1) % (self.q as int) == 0
        &&& has_order(self.alpha, self.q, self.p)
        &&& has_order(self.beta, self.q, self.p)
    }
}

/// The response lies in the range from 0 up to `q`, whatever the nonce, the
/// challenge and the secret are.
pub proof fn lemma_response_in_range(q: nat, k: nat, c: nat, x: nat)
    requires
        q > 0,
    ensures
        0 <= response(q, k, c, x) < q,
{
    lemma_mod_bound(k - c * x, q as int);
}

/// Where `g ^ q` is the unit modulo `p`, a power of `g` modulo `p` depends
/// only on the exponent modulo `q`.
pub proof fn lemma_exponent_modulo_order(g: nat, q: nat, p: nat, e: nat)
    requires
        p > 0,
        q > 0,
        mod_pow(g, q, p) == 1,
    ensures
        mod_pow(g, e, p) == mod_pow(g, e % q, p),
{
    let b = g as int;
    let m = p as int;
    let turns = e / q;
    let rest = e % q;
    lemma_fundamental_div_mod(e as int, q as int);
    assert(e == q * turns + rest);
    lemma_mul_nonnegative(q as int, turns as int);
    assert(pow(b, e) == pow(b, q * turns) * pow(b, rest)) by {
        lemma_pow_adds(b, q * turns, rest);
    }
    assert(pow(b, q * turns) == pow(pow(b, q), turns)) by {
        lemma_pow_multiplies(b, q, turns);
    }
    assert(pow(pow(b, q), turns) % m == 1int % m) by {
        lemma_pow_mod_noop(pow(b, q), turns, m);
        lemma1_pow(turns);
    }
    assert((pow(b, q * turns) * pow(b, rest)) % m == (1 * pow(b, rest)) % m) by {
        lemma_mul_mod_noop_general(pow(b, q * turns), pow(b, rest), m);
        lemma_mul_mod_noop_general(1, pow(b, rest), m);
    }
    lemma_mod_bound(pow(b, e), m);
    lemma_mod_bound(pow(b, rest), m);
}

/// One generator's half of completeness: the commitment to the nonce `k`
/// balances the response against the public key of the secret `x`.
pub proof fn lemma_honest_response_balances(g: nat, q: nat, p: nat, x: nat, k: nat, c: nat)
    requires
        p > 0,
        q > 0,
        mod_pow(g, q, p) == 1,
    ensures
        balances(g, p, mod_pow(g, k, p), mod_pow(g, x, p), c, response(q, k, c, x)),
{
    let b = g as int;
    let m = p as int;
    let n = q as int;
    let s = response(q, k, c, x);
    let y = mod_pow(g, x, p);
    let cx: int = c as int * x as int;
    lemma_mod_bound(pow(b, x), m);
    lemma_mod_bound(pow(b, k), m);
    lemma_mod_bound(k - cx, n);
    lemma_mul_nonnegative(c as int, x as int);
    assert(x * c == cx) by (nonlinear_arith)
        requires
            cx == c as int * x as int,
    ;
    // y ^ c is g ^ (c * x) modulo p
    assert(pow(y as int, c) % m == pow(b, cx as nat) % m) by {
        lemma_pow_mod_noop(pow(b, x), c, m);
        lemma_pow_multiplies(b, x, c);
    }
    // so the product is g ^ (s + c * x) modulo p
    assert((pow(b, s) * pow(y as int, c)) % m == pow(b, (s + cx) as nat) % m) by {
        lemma_mul_mod_noop_general(pow(b, s), pow(y as int, c), m);
        lemma_mul_mod_noop_general(pow(b, s), pow(b, cx as nat), m);
        lemma_pow_adds(b, s, cx as nat);
    }
    // and s + c * x is k modulo q
    assert((s + cx) % n == k as int % n) by {
        lemma_add_mod_noop(k - cx, cx, n);
        lemma_add_mod_noop((k - cx) % n, cx, n);
        lemma_mod_twice(k - cx, n);
    }
    lemma_exponent_modulo_order(g, q, p, (s + cx) as nat);
    lemma_exponent_modulo_order(g, q, p, k);
    lemma_small_mod(mod_pow(g, k, p), p);
}

/// Completeness: in a valid group the verifier accepts what an honest prover
/// sends. With the public key of the secret `x`, the commitment to the nonce
/// `k` and any challenge `c`, the response to `c` is accepted.
pub proof fn lemma_completeness(g: GroupParameters, x: nat, k: nat, c: nat)
    requires
        g.valid(),
    ensures
        ({
            let (y1, y2) = commitment_pair(g, x);
            let (r1, r2) = commitment_pair(g, k);
            accepts(g, r1, r2, y1, y2, c, response(g.q, k, c, x))
        }),
{
    lemma_honest_response_balances(g.alpha, g.q, g.p, x, k, c);
    lemma_honest_response_balances(g.beta, g.q, g.p, x, k, c);
}

} // verus!
