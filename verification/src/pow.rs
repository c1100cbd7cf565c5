//! Proof-of-work search.
//!
//! A worker starts from its own index as nonce and, while the trial value of
//! its current nonce is above the target, advances the nonce by the number of
//! workers and hashes again. The trial value of a nonce is the big-endian value
//! of the first eight bytes of `sha512(sha512(be(nonce) ++ initial_hash))`,
//! where `be(nonce)` is the minimal big-endian encoding of the nonce.
use vstd::prelude::*;

use crate::crypto::{sha512, sha512_digest};

verus! {

/// The handle type of the proof-of-work engine; the search itself is made of
/// the free functions and [`PowState`] below.
pub struct AsyncPoW {}

/// The trial value a worker starts with, before it has hashed anything.
pub const INITIAL_TRIAL_VALUE: u128 = 99999999999999999999u128;

/// Minimal big-endian encoding of a natural number; zero is the single byte 0.
pub open spec fn be_bytes(n: nat) -> Seq<u8>
    decreases n,
{
    if n < 256 {
        seq![n as u8]
    } else {
        be_bytes(n / 256).push((n % 256) as u8)
    }
}

/// The number that a big-endian byte string denotes.
pub open spec fn be_value(s: Seq<u8>) -> nat
    decreases s.len(),
{
    if s.len() == 0 {
        0
    } else {
        be_value(s.drop_last()) * 256 + s.last() as nat
    }
}

/// `256` to the power `n`.
pub open spec fn pow256(n: nat) -> nat
    decreases n,
{
    if n == 0 {
        1
    } else {
        256 * pow256((n - 1) as nat)
    }
}

/// The bytes that are hashed for a nonce.
pub open spec fn pow_input(nonce: nat, initial_hash: Seq<u8>) -> Seq<u8> {
    be_bytes(nonce) + initial_hash
}

/// The trial value of a nonce: the first eight bytes of the double SHA-512
/// digest of the nonce's encoding followed by the initial hash, read big-endian.
pub open spec fn trial_value(nonce: nat, initial_hash: Seq<u8>) -> nat {
    be_value(sha512(sha512(pow_input(nonce, initial_hash))).take(8))
}

/// The trial value of every nonce, for every initial hash of any length, is
/// the big-endian value of the first eight bytes of the SHA-512 digest of the
/// SHA-512 digest of the nonce's minimal big-endian encoding followed by the
/// initial hash: the digest is taken twice.
pub proof fn lemma_trial_value_is_double_sha512(nonce: nat, initial_hash: Seq<u8>)
    ensures
        trial_value(nonce, initial_hash) == be_value(
            sha512(sha512(be_bytes(nonce) + initial_hash)).take(8),
        ),
{
}

/// A target as the search holds it: values above `u128::MAX` become `u128::MAX`.
pub open spec fn clamp_target(t: nat) -> nat {
    if t <= u128::MAX {
        t
    } else {
        u128::MAX as nat
    }
}

/// Clamping the target changes no decision of the search: every trial value
/// the search compares is at most [`INITIAL_TRIAL_VALUE`], and such a value is
/// above the clamped target exactly when it is above the target itself.
pub proof fn lemma_clamped_target_same_decisions(target: nat, trial: nat)
    requires
        trial <= INITIAL_TRIAL_VALUE,
    ensures
        (trial > clamp_target(target)) == (trial > target),
{
}

/// The nonce a worker holds after `k` steps of size `step` from `start`.
pub open spec fn nonce_after(start: nat, step: nat, k: nat) -> nat {
    start + k * step
}

/// The state of one worker's search.
#[derive(Clone, Copy, Debug)]
pub struct PowState {
    pub nonce: u64,
    pub trial_value: u128,
}

/// The trial value that a worker which started at `start` holds after `k`
/// steps: the starting value for `k == 0`, otherwise the trial value of the
/// nonce reached.
pub open spec fn trial_after(start: PowState, step: nat, initial_hash: Seq<u8>, k: nat) -> int {
    if k == 0 {
        start.trial_value as int
    } else {
        trial_value(nonce_after(start.nonce as nat, step, k), initial_hash) as int
    }
}

/// How a bounded search ended.
pub enum PowOutcome {
    /// The state reached has a trial value at or below the target, after `rounds` steps.
    Found { state: PowState, rounds: u64 },
    /// All rounds were used and every trial value seen was above the target.
    Unfinished { state: PowState },
    /// The next nonce would not fit in 64 bits, after `rounds` steps.
    Exhausted { state: PowState, rounds: u64 },
}

/// Encoding a nonce and reading it back gives the nonce, and the encoding is
/// minimal: it never starts with a zero byte unless it is the single byte 0.
pub proof fn lemma_be_bytes_roundtrip(n: nat)
    ensures
        be_value(be_bytes(n)) == n,
        be_bytes(n).len() >= 1,
        be_bytes(n).len() > 1 ==> be_bytes(n)[0] != 0,
    decreases n,
{
    let s = be_bytes(n);
    if n < 256 {
        assert(s.drop_last() =~= Seq::<u8>::empty());
        assert(be_value(s.drop_last()) == 0);
    } else {
        let q = n / 256;
        lemma_be_bytes_roundtrip(q);
        let t = be_bytes(q);
        assert(s.drop_last() =~= t);
        assert(s.last() as nat == n % 256);
        assert(q * 256 + n % 256 == n) by (nonlinear_arith)
            requires
                q == n / 256,
        ;
        assert(s[0] == t[0]);
        assert(q >= 1);
        if t.len() == 1 {
            assert(t.drop_last() =~= Seq::<u8>::empty());
            assert(t.last() == t[0]);
            assert(be_value(t.drop_last()) == 0);
            assert(be_value(t) == t[0] as nat);
        }
    }
}

/// Minimal big-endian encoding of a nonce (zero is encoded as the byte 0).
pub fn nonce_to_bytes_be(n: u64) -> (r: Vec<u8>)
    ensures
        r@ == be_bytes(n as nat),
    decreases n,
{
    if n < 256 {
        let b: u8 = n as u8;
        let mut v: Vec<u8> = Vec::new();
        v.push(b);
        v
    } else {
        let mut v = nonce_to_bytes_be(n / 256);
        let b: u8 = (n % 256) as u8;
        v.push(b);
        v
    }
}

/// The big-endian value of the first eight bytes of `bytes`.
pub fn be_u64_prefix(bytes: &[u8]) -> (r: u64)
    requires
        bytes@.len() >= 8,
    ensures
        r as nat == be_value(bytes@.take(8)),
{
    let mut acc: u64 = 0;
    let mut i: usize = 0;
    while i < 8
        invariant
            0 <= i <= 8,
            bytes@.len() >= 8,
            acc as nat == be_value(bytes@.take(i as int)),
            (acc as nat) < pow256(i as nat),
        decreases 8 - i,
    {
        let ghost p = pow256(i as nat);
        let b: u8 = bytes[i];
        assert(bytes@.take(i as int + 1).drop_last() =~= bytes@.take(i as int));
        assert((acc as nat) * 256 + (b as nat) < p * 256) by (nonlinear_arith)
            requires
                (acc as nat) < p,
                (b as nat) < 256,
        ;
        assert(pow256(8) == 0x1_0000_0000_0000_0000) by {
            reveal_with_fuel(pow256, 9);
        }
        assert(pow256(i as nat + 1) == 256 * p);
        assert(pow256(i as nat + 1) <= pow256(8)) by {
            lemma_pow256_monotone(i as nat + 1, 8);
        }
        acc = acc * 256 + b as u64;
        i = i + 1;
    }
    acc
}

pub proof fn lemma_pow256_monotone(a: nat, b: nat)
    requires
        a <= b,
    ensures
        pow256(a) <= pow256(b),
    decreases b - a,
{
    if a < b {
        lemma_pow256_monotone(a, (b - 1) as nat);
        assert(pow256(b) == 256 * pow256((b - 1) as nat));
    }
}

/// The trial value of `nonce` for `initial_hash`.
pub fn compute_trial_value(nonce: u64, initial_hash: &[u8]) -> (r: u64)
    ensures
        r as nat == trial_value(nonce as nat, initial_hash@),
        r as nat == be_value(sha512(sha512(be_bytes(nonce as nat) + initial_hash@)).take(8)),
{
    let mut data = nonce_to_bytes_be(nonce);
    let mut i: usize = 0;
    let ghost prefix = data@;
    while i < initial_hash.len()
        invariant
            0 <= i <= initial_hash@.len(),
            data@ == prefix + initial_hash@.take(i as int),
        decreases initial_hash@.len() - i,
    {
        data.push(initial_hash[i]);
        i = i + 1;
        assert(initial_hash@.take(i as int) =~= initial_hash@.take(i - 1).push(initial_hash@[i - 1]));
    }
    assert(initial_hash@.take(initial_hash@.len() as int) =~= initial_hash@);
    let first = sha512_digest(data.as_slice());
    let second = sha512_digest(first.as_slice());
    be_u64_prefix(second.as_slice())
}

/// Reads a big-endian target; one above `u128::MAX` is clamped to it, which
/// changes no comparison with a trial value (all of them are at most
/// [`INITIAL_TRIAL_VALUE`]).
pub fn target_from_be_bytes(bytes: &[u8]) -> (r: u128)
    ensures
        r as nat == clamp_target(be_value(bytes@)),
{
    let mut acc: u128 = 0;
    let mut saturated: bool = false;
    let mut i: usize = 0;
    while i < bytes.len()
        invariant
            0 <= i <= bytes@.len(),
            saturated <==> be_value(bytes@.take(i as int)) > u128::MAX,
            !saturated ==> acc as nat == be_value(bytes@.take(i as int)),
        decreases bytes@.len() - i,
    {
        let b: u8 = bytes[i];
        assert(bytes@.take(i as int + 1).drop_last() =~= bytes@.take(i as int));
        let ghost prev = be_value(bytes@.take(i as int));
        if saturated {
            assert(prev * 256 + (b as nat) > u128::MAX) by (nonlinear_arith)
                requires
                    prev > u128::MAX,
            ;
        } else {
            if acc <= (u128::MAX - b as u128) / 256 {
                assert(acc * 256 + b <= u128::MAX) by (nonlinear_arith)
                    requires
                        acc <= (u128::MAX - b as u128) / 256,
                        b < 256,
                ;
                acc = acc * 256 + b as u128;
            } else {
                assert(acc * 256 + b > u128::MAX) by (nonlinear_arith)
                    requires
                        acc > (u128::MAX - b as u128) / 256,
                        b < 256,
                ;
                saturated = true;
            }
        }
        i = i + 1;
    }
    assert(bytes@.take(bytes@.len() as int) =~= bytes@);
    if saturated {
        u128::MAX
    } else {
        acc
    }
}

impl PowState {
    /// The state a worker starts in: its own index as nonce and
    /// [`INITIAL_TRIAL_VALUE`] as trial value.
    pub fn initial(worker_index: u64) -> (r: PowState)
        ensures
            r.nonce == worker_index,
            r.trial_value == INITIAL_TRIAL_VALUE,
    {
        PowState { nonce: worker_index, trial_value: INITIAL_TRIAL_VALUE }
    }

    /// Whether the search goes on: the trial value is still above the target.
    pub fn keeps_searching(&self, target: u128) -> (r: bool)
        ensures
            r == (self.trial_value > target),
    {
        self.trial_value > target
    }

    /// One step of the search: advance the nonce by `step` and hash it.
    /// `None` when the next nonce would not fit in 64 bits.
    pub fn step(&self, step: u64, initial_hash: &[u8]) -> (r: Option<PowState>)
        ensures
            match r {
                Some(s) => {
                    &&& self.nonce + step <= u64::MAX
                    &&& s.nonce == self.nonce + step
                    &&& s.trial_value as nat == trial_value(s.nonce as nat, initial_hash@)
                    &&& s.trial_value <= u64::MAX
                },
                None => self.nonce + step > u64::MAX,
            },
    {
        match self.nonce.checked_add(step) {
            Some(next) => {
                let t = compute_trial_value(next, initial_hash);
                Some(PowState { nonce: next, trial_value: t as u128 })
            },
            None => None,
        }
    }
}

/// Runs at most `max_rounds` steps of the search from `start`, stopping at the
/// first state whose trial value is at or below `target`.
pub fn pow_search(
    target: u128,
    initial_hash: &[u8],
    start: PowState,
    step: u64,
    max_rounds: u64,
) -> (r: PowOutcome)
    ensures
        match r {
            PowOutcome::Found { state, rounds } => {
                &&& rounds <= max_rounds
                &&& state.trial_value <= target
                &&& state.trial_value == trial_after(start, step as nat, initial_hash@, rounds as nat)
                &&& state.nonce == nonce_after(start.nonce as nat, step as nat, rounds as nat)
                &&& forall|j: nat| j < rounds ==> #[trigger] trial_after(start, step as nat, initial_hash@, j) > target
                &&& forall|j: nat| 1 <= j <= rounds ==> #[trigger] trial_after(start, step as nat, initial_hash@, j) <= u64::MAX
            },
            PowOutcome::Unfinished { state } => {
                &&& state.nonce == nonce_after(start.nonce as nat, step as nat, max_rounds as nat)
                &&& state.trial_value == trial_after(start, step as nat, initial_hash@, max_rounds as nat)
                &&& forall|j: nat| j <= max_rounds ==> #[trigger] trial_after(start, step as nat, initial_hash@, j) > target
                &&& forall|j: nat| 1 <= j <= max_rounds ==> #[trigger] trial_after(start, step as nat, initial_hash@, j) <= u64::MAX
            },
            PowOutcome::Exhausted { state, rounds } => {
                &&& rounds < max_rounds
                &&& state.nonce == nonce_after(start.nonce as nat, step as nat, rounds as nat)
                &&& state.nonce + step > u64::MAX
                &&& forall|j: nat| j <= rounds ==> #[trigger] trial_after(start, step as nat, initial_hash@, j) > target
                &&& forall|j: nat| 1 <= j <= rounds ==> #[trigger] trial_after(start, step as nat, initial_hash@, j) <= u64::MAX
            },
        },
{
    let mut cur = PowState { nonce: start.nonce, trial_value: start.trial_value };
    let mut k: u64 = 0;
    while k < max_rounds
        invariant
            k <= max_rounds,
            cur.nonce == nonce_after(start.nonce as nat, step as nat, k as nat),
            cur.trial_value == trial_after(start, step as nat, initial_hash@, k as nat),
            forall|j: nat| j < k ==> #[trigger] trial_after(start, step as nat, initial_hash@, j) > target,
            forall|j: nat| 1 <= j <= k ==> #[trigger] trial_after(start, step as nat, initial_hash@, j) <= u64::MAX,
        decreases max_rounds - k,
    {
        if !cur.keeps_searching(target) {
            return PowOutcome::Found { state: cur, rounds: k };
        }
        match cur.step(step, initial_hash) {
            Some(next) => {
                assert(nonce_after(start.nonce as nat, step as nat, k as nat + 1)
                    == nonce_after(start.nonce as nat, step as nat, k as nat) + step) by (nonlinear_arith);
                cur = next;
                k = k + 1;
            },
            None => {
                return PowOutcome::Exhausted { state: cur, rounds: k };
            },
        }
    }
    if !cur.keeps_searching(target) {
        return PowOutcome::Found { state: cur, rounds: k };
    }
    PowOutcome::Unfinished { state: cur }
}

/// Workers never hash the same nonce: with `n` workers, the nonces of worker
/// `i` and of worker `j != i` differ after any numbers of steps.
pub proof fn lemma_worker_nonces_disjoint(n: nat, i: nat, j: nat, k: nat, m: nat)
    requires
        i < n,
        j < n,
        i != j,
    ensures
        nonce_after(i, n, k) != nonce_after(j, n, m),
{
    if nonce_after(i, n, k) == nonce_after(j, n, m) {
        if k == m {
            assert(false);
        } else if k < m {
            assert((m - k) * n >= n) by (nonlinear_arith)
                requires
                    k < m,
            ;
            assert(i + k * n == j + m * n);
            assert(m * n == k * n + (m - k) * n) by (nonlinear_arith);
            assert(false);
        } else {
            assert((k - m) * n >= n) by (nonlinear_arith)
                requires
                    m < k,
            ;
            assert(k * n == m * n + (k - m) * n) by (nonlinear_arith);
            assert(false);
        }
    }
}

/// Every nonce at or above the number of workers `n` is hashed by exactly one
/// worker: worker `nonce % n`, at step `nonce / n`.
pub proof fn lemma_nonce_owner(n: nat, nonce: nat)
    requires
        n > 0,
        nonce >= n,
    ensures
        nonce % n < n,
        nonce / n >= 1,
        nonce_after(nonce % n, n, nonce / n) == nonce,
{
    vstd::arithmetic::div_mod::lemma_fundamental_div_mod(nonce as int, n as int);
    assert(nonce / n >= 1) by (nonlinear_arith)
        requires
            nonce >= n,
            n > 0,
    ;
    assert(nonce_after(nonce % n, n, nonce / n) == nonce % n + (nonce / n) * n);
    assert((nonce / n) * n == n * (nonce / n)) by (nonlinear_arith);
}

} // verus!
