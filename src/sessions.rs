use vstd::prelude::*;

use core::convert::Infallible;
use core::marker::PhantomData;

use crate::operand_sizes::{Multi, RsaMode};
use crate::rsa::{completed, overwrite, poll, poll_returns, started, Operation, Rsa, RsaState};

verus! {

/// The accelerator once an exponentiation session staged its exponent (in
/// operand B), modulus and modulus-prime word.
pub open spec fn exponentiation_staged(
    s: RsaState,
    exponent: Seq<u8>,
    modulus: Seq<u8>,
    m_prime: u32,
) -> RsaState {
    RsaState { y: overwrite(s.y, 0, exponent), m: overwrite(s.m, 0, modulus), m_prime, ..s }
}

/// The accelerator once an exponentiation is started on `base` with the
/// Montgomery residue `r`.
pub open spec fn exponentiation_started(s: RsaState, base: Seq<u8>, r: Seq<u8>) -> RsaState {
    started(
        RsaState { x: overwrite(s.x, 0, base), z: overwrite(s.z, 0, r), ..s },
        Operation::ModularExponentiation,
    )
}

/// The accelerator once a modular multiplication session staged both
/// factors, the modulus and the modulus-prime word.
pub open spec fn modular_multiplication_staged(
    s: RsaState,
    operand_a: Seq<u8>,
    operand_b: Seq<u8>,
    modulus: Seq<u8>,
    m_prime: u32,
) -> RsaState {
    RsaState {
        x: overwrite(s.x, 0, operand_a),
        y: overwrite(s.y, 0, operand_b),
        m: overwrite(s.m, 0, modulus),
        m_prime,
        ..s
    }
}

/// The accelerator once a modular multiplication is started with the
/// Montgomery residue `r`.
pub open spec fn modular_multiplication_started(s: RsaState, r: Seq<u8>) -> RsaState {
    started(RsaState { z: overwrite(s.z, 0, r), ..s }, Operation::ModularMultiplication)
}

/// The accelerator once a plain multiplication session staged its first factor.
pub open spec fn multiplication_staged(s: RsaState, operand_a: Seq<u8>) -> RsaState {
    RsaState { x: overwrite(s.x, 0, operand_a), ..s }
}

/// The accelerator once a plain multiplication is started on the second
/// factor, which goes to the result region right after the product's low half.
pub open spec fn multiplication_started(s: RsaState, operand_b: Seq<u8>) -> RsaState {
    started(
        RsaState { z: overwrite(s.z, operand_b.len() as int, operand_b), ..s },
        Operation::Multiplication,
    )
}

/// Modular exponentiation `(base ^ exponent) mod modulus` on operands of
/// width `T`, each a little-endian byte array of `T::input_bytes()` bytes.
pub struct RsaModularExponentiation<T: RsaMode> {
    rsa: Rsa,
    phantom: PhantomData<T>,
}

impl<T: RsaMode> View for RsaModularExponentiation<T> {
    type V = RsaState;

    closed spec fn view(&self) -> RsaState {
        self.rsa@
    }
}

impl<T: RsaMode> RsaModularExponentiation<T> {
    pub open spec fn wf(&self) -> bool {
        crate::rsa::regions_wf(self@)
    }

    /// Opens a session on `rsa`, staging the exponent in the operand B
    /// region, the modulus and the modulus-prime word.
    pub fn new(mut rsa: Rsa, exponent: &[u8], modulus: &[u8], m_prime: u32) -> (r: Self)
        requires
            rsa.wf(),
            exponent@.len() == T::input_bytes(),
            modulus@.len() == T::input_bytes(),
        ensures
            r.wf(),
            r@ == exponentiation_staged(rsa@, exponent@, modulus@, m_prime),
    {
        // the width contract bounds the operand length
        let _ = T::input_len();
        rsa.write_operand_b(exponent);
        rsa.write_modulus(modulus);
        rsa.write_mprime(m_prime);
        RsaModularExponentiation { rsa, phantom: PhantomData }
    }

    /// Stages `base` in the operand A region and the Montgomery residue
    /// `r = 2 ^ (2 * bits) mod modulus` in the result region, then sets the
    /// start bit. The hardware computes on its own from there.
    pub fn start_exponentiation(&mut self, base: &[u8], r: &[u8])
        requires
            old(self).wf(),
            base@.len() == T::input_bytes(),
            r@.len() == T::input_bytes(),
        ensures
            final(self).wf(),
            final(self)@ == exponentiation_started(old(self)@, base@, r@),
    {
        // the width contract bounds the operand length
        let _ = T::input_len();
        self.rsa.write_operand_a(base);
        self.rsa.write_r(r);
        self.rsa.set_start(Operation::ModularExponentiation);
    }

    /// Polls for the result without blocking. While the hardware computes it
    /// returns `WouldBlock` and changes nothing; once it is done, `outbuf`
    /// receives the result, the completion signal is acknowledged and `Ok`
    /// comes back. An operation must have been started since the last result.
    pub fn read_results(&mut self, outbuf: &mut [u8]) -> (r: nb::Result<(), Infallible>)
        requires
            old(self).wf(),
            !(old(self)@.engine is Idle),
            old(outbuf)@.len() == T::input_bytes(),
        ensures
            final(self).wf(),
            (final(self)@, final(outbuf)@) == poll(old(self)@, old(outbuf)@),
            poll_returns(old(self)@, r),
    {
        // the width contract bounds the operand length
        let _ = T::input_len();
        self.rsa.poll_results(outbuf)
    }

    /// What the hardware does when the exponentiation finishes (see
    /// [`Rsa::hardware_complete`]).
    pub fn hardware_complete(&mut self, result: &[u8])
        requires
            old(self).wf(),
            result@.len() == T::input_bytes(),
        ensures
            final(self).wf(),
            final(self)@ == completed(old(self)@, result@),
    {
        // the width contract bounds the operand length
        let _ = T::input_len();
        self.rsa.hardware_complete(result);
    }

    /// Ends the session and gives the accelerator back.
    pub fn free(self) -> (r: Rsa)
        ensures
            r@ == self@,
    {
        self.rsa
    }
}

/// Modular multiplication `(operand_a * operand_b) mod modulus` on operands of
/// width `T`, each a little-endian byte array of `T::input_bytes()` bytes.
pub struct RsaModularMultiplication<T: RsaMode> {
    rsa: Rsa,
    phantom: PhantomData<T>,
}

impl<T: RsaMode> View for RsaModularMultiplication<T> {
    type V = RsaState;

    closed spec fn view(&self) -> RsaState {
        self.rsa@
    }
}

impl<T: RsaMode> RsaModularMultiplication<T> {
    pub open spec fn wf(&self) -> bool {
        crate::rsa::regions_wf(self@)
    }

    /// Opens a session on `rsa`, staging both factors, the modulus and the
    /// modulus-prime word.
    pub fn new(mut rsa: Rsa, operand_a: &[u8], operand_b: &[u8], modulus: &[u8], m_prime: u32) -> (r:
        Self)
        requires
            rsa.wf(),
            operand_a@.len() == T::input_bytes(),
            operand_b@.len() == T::input_bytes(),
            modulus@.len() == T::input_bytes(),
        ensures
            r.wf(),
            r@ == modular_multiplication_staged(rsa@, operand_a@, operand_b@, modulus@, m_prime),
    {
        // the width contract bounds the operand length
        let _ = T::input_len();
        rsa.write_mprime(m_prime);
        rsa.write_modulus(modulus);
        rsa.write_operand_a(operand_a);
        rsa.write_operand_b(operand_b);
        RsaModularMultiplication { rsa, phantom: PhantomData }
    }

    /// Stages the Montgomery residue `r = 2 ^ (2 * bits) mod modulus` in the
    /// result region, then sets the start bit.
    pub fn start_modular_multiplication(&mut self, r: &[u8])
        requires
            old(self).wf(),
            r@.len() == T::input_bytes(),
        ensures
            final(self).wf(),
            final(self)@ == modular_multiplication_started(old(self)@, r@),
    {
        // the width contract bounds the operand length
        let _ = T::input_len();
        self.rsa.write_r(r);
        self.rsa.set_start(Operation::ModularMultiplication);
    }

    /// Polls for the result without blocking, as
    /// [`RsaModularExponentiation::read_results`] does.
    pub fn read_results(&mut self, outbuf: &mut [u8]) -> (r: nb::Result<(), Infallible>)
        requires
            old(self).wf(),
            !(old(self)@.engine is Idle),
            old(outbuf)@.len() == T::input_bytes(),
        ensures
            final(self).wf(),
            (final(self)@, final(outbuf)@) == poll(old(self)@, old(outbuf)@),
            poll_returns(old(self)@, r),
    {
        // the width contract bounds the operand length
        let _ = T::input_len();
        self.rsa.poll_results(outbuf)
    }

    /// What the hardware does when the multiplication finishes (see
    /// [`Rsa::hardware_complete`]).
    pub fn hardware_complete(&mut self, result: &[u8])
        requires
            old(self).wf(),
            result@.len() == T::input_bytes(),
        ensures
            final(self).wf(),
            final(self)@ == completed(old(self)@, result@),
    {
        // the width contract bounds the operand length
        let _ = T::input_len();
        self.rsa.hardware_complete(result);
    }

    /// Ends the session and gives the accelerator back.
    pub fn free(self) -> (r: Rsa)
        ensures
            r@ == self@,
    {
        self.rsa
    }
}

/// Plain multiplication `operand_a * operand_b` of two operands of width `T`;
/// the product, little-endian, is twice as long as an operand.
pub struct RsaMultiplication<T: RsaMode + Multi> {
    rsa: Rsa,
    phantom: PhantomData<T>,
}

impl<T: RsaMode + Multi> View for RsaMultiplication<T> {
    type V = RsaState;

    closed spec fn view(&self) -> RsaState {
        self.rsa@
    }
}

impl<T: RsaMode + Multi> RsaMultiplication<T> {
    pub open spec fn wf(&self) -> bool {
        crate::rsa::regions_wf(self@)
    }

    /// Opens a session on `rsa`, staging the first factor.
    pub fn new(mut rsa: Rsa, operand_a: &[u8]) -> (r: Self)
        requires
            rsa.wf(),
            operand_a@.len() == T::input_bytes(),
        ensures
            r.wf(),
            r@ == multiplication_staged(rsa@, operand_a@),
    {
        // the width contract bounds the product length
        let _ = T::output_len();
        rsa.write_operand_a(operand_a);
        RsaMultiplication { rsa, phantom: PhantomData }
    }

    /// Stages the second factor in the result region, just after the bytes
    /// the product's low half will take, then sets the start bit.
    pub fn start_multiplication(&mut self, operand_b: &[u8])
        requires
            old(self).wf(),
            operand_b@.len() == T::input_bytes(),
        ensures
            final(self).wf(),
            final(self)@ == multiplication_started(old(self)@, operand_b@),
    {
        // the width contract bounds the product length
        let _ = T::output_len();
        self.rsa.write_multi_operand_b(operand_b);
        self.rsa.set_start(Operation::Multiplication);
    }

    /// Polls for the product without blocking, as
    /// [`RsaModularExponentiation::read_results`] does; `outbuf` is twice
    /// as long as an operand.
    pub fn read_results(&mut self, outbuf: &mut [u8]) -> (r: nb::Result<(), Infallible>)
        requires
            old(self).wf(),
            !(old(self)@.engine is Idle),
            old(outbuf)@.len() == 2 * T::input_bytes(),
        ensures
            final(self).wf(),
            (final(self)@, final(outbuf)@) == poll(old(self)@, old(outbuf)@),
            poll_returns(old(self)@, r),
    {
        // the width contract bounds the product length
        let _ = T::output_len();
        self.rsa.poll_results(outbuf)
    }

    /// What the hardware does when the multiplication finishes (see
    /// [`Rsa::hardware_complete`]); `result` is twice as long as an operand.
    pub fn hardware_complete(&mut self, result: &[u8])
        requires
            old(self).wf(),
            result@.len() == 2 * T::input_bytes(),
        ensures
            final(self).wf(),
            final(self)@ == completed(old(self)@, result@),
    {
        // the width contract bounds the product length
        let _ = T::output_len();
        self.rsa.hardware_complete(result);
    }

    /// Ends the session and gives the accelerator back.
    pub fn free(self) -> (r: Rsa)
        ensures
            r@ == self@,
    {
        self.rsa
    }
}

} // verus!
