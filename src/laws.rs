use vstd::prelude::*;

use core::convert::Infallible;
use vstd::arithmetic::power::{lemma_pow_adds, pow};

use crate::operand_sizes::REGION_BYTES;
use crate::rsa::{
    cleared, completed, poll, poll_returns, regions_wf, started, Engine, Operation, RsaState,
};
use crate::sessions::{
    exponentiation_staged, exponentiation_started, multiplication_staged, multiplication_started,
};

verus! {

/// The unsigned number that the little-endian bytes `b` encode.
pub open spec fn le_value(b: Seq<u8>) -> nat
    decreases b.len(),
{
    if b.len() == 0 {
        0
    } else {
        b[0] as nat + 256 * le_value(b.drop_first())
    }
}

/// The `n` little-endian bytes of `v` (taken modulo `256 ^ n`).
pub open spec fn le_bytes(v: nat, n: nat) -> Seq<u8>
    decreases n,
{
    if n == 0 {
        Seq::empty()
    } else {
        seq![(v % 256) as u8] + le_bytes(v / 256, (n - 1) as nat)
    }
}

/// `(base ^ exponent) mod modulus`, computed on unbounded integers.
pub open spec fn mod_exp(base: nat, exponent: nat, modulus: nat) -> nat
    recommends
        modulus > 0,
{
    (pow(base as int, exponent) % (modulus as int)) as nat
}

/// `n` little-endian bytes hold every number below `256 ^ n`, and encode it
/// back.
pub proof fn lemma_le_bytes_value(v: nat, n: nat)
    requires
        v < pow(256, n),
    ensures
        le_bytes(v, n).len() == n,
        le_value(le_bytes(v, n)) == v,
    decreases n,
{
    reveal(pow);
    if n > 0 {
        let p = pow(256, (n - 1) as nat);
        assert(v / 256 < p) by (nonlinear_arith)
            requires
                v < 256 * p,
        ;
        lemma_le_bytes_value(v / 256, (n - 1) as nat);
        let b = le_bytes(v, n);
        assert(b.drop_first() =~= le_bytes(v / 256, (n - 1) as nat));
        assert((v % 256) + 256 * (v / 256) == v) by (nonlinear_arith);
    }
}

/// The number that `b` encodes is below `256 ^ b.len()`.
pub proof fn lemma_le_value_bound(b: Seq<u8>)
    ensures
        le_value(b) < pow(256, b.len()),
    decreases b.len(),
{
    reveal(pow);
    if b.len() > 0 {
        lemma_le_value_bound(b.drop_first());
        let rest = le_value(b.drop_first());
        let p = pow(256, (b.len() - 1) as nat);
        assert(b[0] as nat + 256 * rest < 256 * p) by (nonlinear_arith)
            requires
                rest < p,
                b[0] < 256,
        ;
    }
}

/// Reading `n` bytes of a region of which `overwrite` put `data` in front
/// gives back `data`.
proof fn lemma_read_front(region: Seq<u8>, data: Seq<u8>)
    requires
        data.len() <= region.len(),
    ensures
        crate::rsa::overwrite(region, 0, data).subrange(0, data.len() as int) == data,
{
    assert(crate::rsa::overwrite(region, 0, data).subrange(0, data.len() as int) =~= data);
}

/// Exponentiation end to end: the exponent and modulus that the session
/// staged, and the base and residue that the start staged, are what the
/// hardware computes on; once it writes `base ^ exponent mod modulus`, the
/// poll that follows hands back exactly that number in operand-width
/// little-endian bytes and leaves the accelerator idle.
pub proof fn lemma_exponentiation_end_to_end(
    s: RsaState,
    exponent: Seq<u8>,
    modulus: Seq<u8>,
    m_prime: u32,
    base: Seq<u8>,
    r: Seq<u8>,
    out: Seq<u8>,
)
    requires
        regions_wf(s),
        base.len() <= REGION_BYTES,
        exponent.len() == base.len(),
        modulus.len() == base.len(),
        r.len() == base.len(),
        out.len() == base.len(),
        le_value(modulus) > 0,
    ensures
        ({
            let hw = exponentiation_started(exponentiation_staged(s, exponent, modulus, m_prime), base, r);
            let n = base.len() as int;
            let expected = mod_exp(le_value(base), le_value(exponent), le_value(modulus));
            let after = poll(completed(hw, le_bytes(expected, base.len())), out);
            &&& hw.x.subrange(0, n) == base
            &&& hw.y.subrange(0, n) == exponent
            &&& hw.m.subrange(0, n) == modulus
            &&& hw.z.subrange(0, n) == r
            &&& hw.m_prime == m_prime
            &&& hw.engine == Engine::Busy(Operation::ModularExponentiation)
            &&& after.1.len() == n
            &&& le_value(after.1) == expected
            &&& after.0.engine == Engine::Idle
        }),
{
    let staged = exponentiation_staged(s, exponent, modulus, m_prime);
    let hw = exponentiation_started(staged, base, r);
    let expected = mod_exp(le_value(base), le_value(exponent), le_value(modulus));
    lemma_read_front(s.x, base);
    lemma_read_front(s.y, exponent);
    lemma_read_front(s.m, modulus);
    lemma_read_front(s.z, r);
    lemma_le_value_bound(modulus);
    lemma_le_bytes_value(expected, base.len());
    let result = le_bytes(expected, base.len());
    lemma_read_front(hw.z, result);
}

/// Plain multiplication end to end: the first factor is staged in operand A
/// and the second right after the product's low half in the result region;
/// once the hardware writes the exact product, the poll hands back
/// `2 * n` bytes whose little-endian value is `a * b`, with no reduction.
pub proof fn lemma_multiplication_end_to_end(
    s: RsaState,
    operand_a: Seq<u8>,
    operand_b: Seq<u8>,
    out: Seq<u8>,
)
    requires
        regions_wf(s),
        2 * operand_a.len() <= REGION_BYTES,
        operand_b.len() == operand_a.len(),
        out.len() == 2 * operand_a.len(),
    ensures
        ({
            let n = operand_a.len() as int;
            let hw = multiplication_started(multiplication_staged(s, operand_a), operand_b);
            let product = le_value(operand_a) * le_value(operand_b);
            let after = poll(completed(hw, le_bytes(product, out.len())), out);
            &&& hw.x.subrange(0, n) == operand_a
            &&& hw.z.subrange(n, 2 * n) == operand_b
            &&& hw.engine == Engine::Busy(Operation::Multiplication)
            &&& after.1.len() == 2 * n
            &&& le_value(after.1) == product
            &&& after.0.engine == Engine::Idle
        }),
{
    let n = operand_a.len();
    let hw = multiplication_started(multiplication_staged(s, operand_a), operand_b);
    let product = le_value(operand_a) * le_value(operand_b);
    lemma_read_front(s.x, operand_a);
    assert(hw.z.subrange(n as int, 2 * n as int) =~= operand_b);
    lemma_le_value_bound(operand_a);
    lemma_le_value_bound(operand_b);
    lemma_pow_adds(256, n, n);
    let p = pow(256, n);
    assert(product < p * p) by (nonlinear_arith)
        requires
            le_value(operand_a) < p,
            le_value(operand_b) < p,
            product == le_value(operand_a) * le_value(operand_b),
    ;
    lemma_le_bytes_value(product, out.len());
    lemma_read_front(hw.z, le_bytes(product, out.len()));
}

/// `k` polls in a row.
pub open spec fn poll_times(s: RsaState, out: Seq<u8>, k: nat) -> (RsaState, Seq<u8>)
    decreases k,
{
    if k == 0 {
        (s, out)
    } else {
        let (s1, out1) = poll(s, out);
        poll_times(s1, out1, (k - 1) as nat)
    }
}

/// While the hardware computes, every poll returns the pending signal, and
/// any number of polls leaves the output buffer and the completion latch as
/// they were.
pub proof fn lemma_pending_polls_change_nothing(s: RsaState, out: Seq<u8>, k: nat)
    requires
        s.engine is Busy,
    ensures
        poll_times(s, out, k) == (s, out),
        forall|r: nb::Result<(), Infallible>|
            poll_returns(s, r) <==> r == Err::<(), nb::Error<Infallible>>(nb::Error::WouldBlock),
    decreases k,
{
    if k > 0 {
        lemma_pending_polls_change_nothing(s, out, (k - 1) as nat);
    }
}

/// Acknowledging a finished operation readies the accelerator: the poll that
/// reads the result acknowledges it, a second acknowledgement changes
/// nothing, and the next operation's poll hands back that operation's own
/// result, nothing of the previous one.
pub proof fn lemma_clear_readies_next(
    s: RsaState,
    out: Seq<u8>,
    op: Operation,
    result: Seq<u8>,
    next_out: Seq<u8>,
)
    requires
        regions_wf(s),
        s.engine is Done,
        out.len() <= REGION_BYTES,
        result.len() <= REGION_BYTES,
        next_out.len() == result.len(),
    ensures
        poll(s, out).0 == cleared(s),
        cleared(s).engine == Engine::Idle,
        cleared(cleared(s)) == cleared(s),
        poll(completed(started(cleared(s), op), result), next_out).1 == result,
        poll(completed(started(cleared(s), op), result), next_out).0.engine == Engine::Idle,
{
    lemma_read_front(s.z, result);
}

} // verus!
