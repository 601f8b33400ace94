use vstd::prelude::*;

use core::convert::Infallible;

use crate::clock::{PeripheralClockControl, PeripheralEnable};
use crate::operand_sizes::REGION_BYTES;

verus! {

/// The three operations the accelerator computes.
#[derive(Clone, Copy, Debug, PartialEq, Eq, Structural)]
pub enum Operation {
    /// `(x ^ y) mod m`
    ModularExponentiation,
    /// `(x * y) mod m`
    ModularMultiplication,
    /// `x * y`, without reduction
    Multiplication,
}

/// Where the accelerator stands between two operations.
#[derive(Clone, Copy, Debug, PartialEq, Eq, Structural)]
pub enum Engine {
    /// No operation is running and no result is waiting to be acknowledged.
    Idle,
    /// The start bit was set and the hardware computes.
    Busy(Operation),
    /// The hardware finished: the result region holds the result and the
    /// completion signal is raised.
    Done,
}

/// Everything software can observe of the accelerator.
pub struct RsaState {
    /// Operand A region.
    pub x: Seq<u8>,
    /// Operand B region.
    pub y: Seq<u8>,
    /// Modulus region.
    pub m: Seq<u8>,
    /// Montgomery residue / result region.
    pub z: Seq<u8>,
    /// Modulus-prime word.
    pub m_prime: u32,
    /// Start bit and completion latch.
    pub engine: Engine,
}

/// `region` with the `data.len()` bytes from `offset` on replaced by `data`.
pub open spec fn overwrite(region: Seq<u8>, offset: int, data: Seq<u8>) -> Seq<u8> {
    region.subrange(0, offset) + data + region.subrange(offset + data.len(), region.len() as int)
}

/// The accelerator and the output buffer after one non-blocking poll for a
/// result: while the hardware computes nothing changes; otherwise the buffer
/// receives the front of the result region and the completion signal is
/// acknowledged.
pub open spec fn poll(s: RsaState, out: Seq<u8>) -> (RsaState, Seq<u8>) {
    if s.engine is Busy {
        (s, out)
    } else {
        (RsaState { engine: Engine::Idle, ..s }, s.z.subrange(0, out.len() as int))
    }
}

/// The accelerator after the start bit of `op` is set.
pub open spec fn started(s: RsaState, op: Operation) -> RsaState {
    RsaState { engine: Engine::Busy(op), ..s }
}

/// The accelerator after the hardware finished a running operation with
/// `result`; unchanged when no operation runs.
pub open spec fn completed(s: RsaState, result: Seq<u8>) -> RsaState {
    if s.engine is Busy {
        RsaState { z: overwrite(s.z, 0, result), engine: Engine::Done, ..s }
    } else {
        s
    }
}

/// The accelerator after the completion signal is acknowledged.
pub open spec fn cleared(s: RsaState) -> RsaState {
    if s.engine is Done {
        RsaState { engine: Engine::Idle, ..s }
    } else {
        s
    }
}

/// What a poll returns: the pending signal exactly while the hardware computes.
pub open spec fn poll_returns(s: RsaState, r: nb::Result<(), Infallible>) -> bool {
    if s.engine is Busy {
        r == Err::<(), nb::Error<Infallible>>(nb::Error::WouldBlock)
    } else {
        r == Ok::<(), nb::Error<Infallible>>(())
    }
}

/// The register block of the accelerator: four operand regions of
/// `REGION_BYTES` bytes each, the modulus-prime word and the completion latch.
pub struct RsaPeripheral {
    x_mem: Vec<u8>,
    y_mem: Vec<u8>,
    m_mem: Vec<u8>,
    z_mem: Vec<u8>,
    m_prime: u32,
    engine: Engine,
}

impl View for RsaPeripheral {
    type V = RsaState;

    closed spec fn view(&self) -> RsaState {
        RsaState {
            x: self.x_mem@,
            y: self.y_mem@,
            m: self.m_mem@,
            z: self.z_mem@,
            m_prime: self.m_prime,
            engine: self.engine,
        }
    }
}

/// A register block whose regions all have the hardware's capacity.
pub open spec fn regions_wf(s: RsaState) -> bool {
    &&& s.x.len() == REGION_BYTES
    &&& s.y.len() == REGION_BYTES
    &&& s.m.len() == REGION_BYTES
    &&& s.z.len() == REGION_BYTES
}

/// Copies `src` into `dst` from byte `offset` on.
fn copy_into(dst: &mut Vec<u8>, offset: usize, src: &[u8])
    requires
        offset + src@.len() <= old(dst)@.len(),
    ensures
        final(dst)@ == overwrite(old(dst)@, offset as int, src@),
{
    let n = src.len();
    let len = dst.len();
    let mut i: usize = 0;
    while i < n
        invariant
            n == src@.len(),
            len == dst@.len(),
            i <= n,
            offset + n <= len,
            dst@.len() == old(dst)@.len(),
            forall|j: int| 0 <= j < i ==> dst@[offset + j] == src@[j],
            forall|j: int| 0 <= j < offset ==> dst@[j] == old(dst)@[j],
            forall|j: int| offset + i <= j < dst@.len() ==> dst@[j] == old(dst)@[j],
        decreases n - i,
    {
        dst[offset + i] = src[i];
        i = i + 1;
    }
    assert(dst@ =~= overwrite(old(dst)@, offset as int, src@));
}

impl RsaPeripheral {
    /// The register block as it comes out of reset: zeroed regions, idle.
    pub fn new() -> (r: Self)
        ensures
            regions_wf(r@),
            r@.x == Seq::new(REGION_BYTES as nat, |i: int| 0u8),
            r@.y == Seq::new(REGION_BYTES as nat, |i: int| 0u8),
            r@.m == Seq::new(REGION_BYTES as nat, |i: int| 0u8),
            r@.z == Seq::new(REGION_BYTES as nat, |i: int| 0u8),
            r@.m_prime == 0,
            r@.engine == Engine::Idle,
    {
        let r = RsaPeripheral {
            x_mem: vec![0u8; REGION_BYTES],
            y_mem: vec![0u8; REGION_BYTES],
            m_mem: vec![0u8; REGION_BYTES],
            z_mem: vec![0u8; REGION_BYTES],
            m_prime: 0,
            engine: Engine::Idle,
        };
        assert(r@.x =~= Seq::new(REGION_BYTES as nat, |i: int| 0u8));
        assert(r@.y =~= Seq::new(REGION_BYTES as nat, |i: int| 0u8));
        assert(r@.m =~= Seq::new(REGION_BYTES as nat, |i: int| 0u8));
        assert(r@.z =~= Seq::new(REGION_BYTES as nat, |i: int| 0u8));
        r
    }
}

/// The accelerator, with its clock running. Each operation session holds it
/// for its whole life, so no two sessions can be open at once.
pub struct Rsa {
    rsa: RsaPeripheral,
}

impl View for Rsa {
    type V = RsaState;

    closed spec fn view(&self) -> RsaState {
        self.rsa@
    }
}

impl Rsa {
    /// Every region has the hardware's capacity.
    pub open spec fn wf(&self) -> bool {
        regions_wf(self@)
    }

    /// Takes the register block and opens the accelerator's clock gate.
    pub fn new(rsa: RsaPeripheral, peripheral_clock_control: &mut PeripheralClockControl) -> (r:
        Self)
        requires
            regions_wf(rsa@),
        ensures
            r.wf(),
            r@ == rsa@,
            final(peripheral_clock_control).spec_is_enabled(PeripheralEnable::Rsa),
            forall|q: PeripheralEnable|
                q != PeripheralEnable::Rsa ==> final(peripheral_clock_control).spec_is_enabled(q)
                    == old(peripheral_clock_control).spec_is_enabled(q),
    {
        let mut ret = Rsa { rsa };
        ret.init(peripheral_clock_control);
        ret
    }

    /// Opens the accelerator's clock gate; the registers are left as they are.
    pub fn init(&mut self, peripheral_clock_control: &mut PeripheralClockControl)
        ensures
            *final(self) == *old(self),
            final(peripheral_clock_control).spec_is_enabled(PeripheralEnable::Rsa),
            forall|q: PeripheralEnable|
                q != PeripheralEnable::Rsa ==> final(peripheral_clock_control).spec_is_enabled(q)
                    == old(peripheral_clock_control).spec_is_enabled(q),
    {
        peripheral_clock_control.enable(PeripheralEnable::Rsa);
    }

    /// Gives the register block back.
    pub fn free(self) -> (r: RsaPeripheral)
        ensures
            r@ == self@,
    {
        self.rsa
    }

    /// Copies `operand_b` byte for byte to the front of the operand B region.
    pub fn write_operand_b(&mut self, operand_b: &[u8])
        requires
            old(self).wf(),
            operand_b@.len() <= REGION_BYTES,
        ensures
            final(self).wf(),
            final(self)@ == (RsaState { y: overwrite(old(self)@.y, 0, operand_b@), ..old(self)@ }),
    {
        copy_into(&mut self.rsa.y_mem, 0, operand_b);
    }

    /// Copies `operand_b` into the result region just after the first
    /// `operand_b.len()` bytes, where the plain multiplication reads its
    /// second factor.
    pub fn write_multi_operand_b(&mut self, operand_b: &[u8])
        requires
            old(self).wf(),
            2 * operand_b@.len() <= REGION_BYTES,
        ensures
            final(self).wf(),
            final(self)@ == (RsaState {
                z: overwrite(old(self)@.z, operand_b@.len() as int, operand_b@),
                ..old(self)@
            }),
    {
        copy_into(&mut self.rsa.z_mem, operand_b.len(), operand_b);
    }

    /// Copies `modulus` byte for byte to the front of the modulus region.
    pub fn write_modulus(&mut self, modulus: &[u8])
        requires
            old(self).wf(),
            modulus@.len() <= REGION_BYTES,
        ensures
            final(self).wf(),
            final(self)@ == (RsaState { m: overwrite(old(self)@.m, 0, modulus@), ..old(self)@ }),
    {
        copy_into(&mut self.rsa.m_mem, 0, modulus);
    }

    /// Writes the modulus-prime word used by the Montgomery reduction.
    pub fn write_mprime(&mut self, m_prime: u32)
        ensures
            final(self)@ == (RsaState { m_prime, ..old(self)@ }),
    {
        self.rsa.m_prime = m_prime;
    }

    /// Copies `operand_a` byte for byte to the front of the operand A region.
    pub fn write_operand_a(&mut self, operand_a: &[u8])
        requires
            old(self).wf(),
            operand_a@.len() <= REGION_BYTES,
        ensures
            final(self).wf(),
            final(self)@ == (RsaState { x: overwrite(old(self)@.x, 0, operand_a@), ..old(self)@ }),
    {
        copy_into(&mut self.rsa.x_mem, 0, operand_a);
    }

    /// Copies the Montgomery residue `r` byte for byte to the front of the
    /// result region.
    pub fn write_r(&mut self, r: &[u8])
        requires
            old(self).wf(),
            r@.len() <= REGION_BYTES,
        ensures
            final(self).wf(),
            final(self)@ == (RsaState { z: overwrite(old(self)@.z, 0, r@), ..old(self)@ }),
    {
        copy_into(&mut self.rsa.z_mem, 0, r);
    }

    /// Fills `outbuf` with the first `outbuf.len()` bytes of the result region.
    pub fn read_out(&self, outbuf: &mut [u8])
        requires
            self.wf(),
            old(outbuf)@.len() <= REGION_BYTES,
        ensures
            final(outbuf)@ == self@.z.subrange(0, old(outbuf)@.len() as int),
    {
        let n = outbuf.len();
        let mut i: usize = 0;
        while i < n
            invariant
                n == outbuf@.len(),
                n <= REGION_BYTES,
                i <= n,
                self.wf(),
                forall|j: int| 0 <= j < i ==> outbuf@[j] == self@.z[j],
            decreases n - i,
        {
            outbuf[i] = self.rsa.z_mem[i];
            i = i + 1;
        }
        assert(outbuf@ =~= self@.z.subrange(0, n as int));
    }

    /// Whether the hardware is not computing: the completion latch.
    pub fn is_idle(&self) -> (r: bool)
        ensures
            r == !(self@.engine is Busy),
    {
        match self.rsa.engine {
            Engine::Busy(_) => false,
            _ => true,
        }
    }

    /// Acknowledges a finished operation, so that the next one can start.
    pub fn clear_interrupt(&mut self)
        ensures
            final(self)@ == cleared(old(self)@),
    {
        if let Engine::Done = self.rsa.engine {
            self.rsa.engine = Engine::Idle;
        }
    }

    /// Sets the start bit of `op`: the hardware begins to compute from the
    /// staged regions.
    pub fn set_start(&mut self, op: Operation)
        ensures
            final(self)@ == started(old(self)@, op),
    {
        self.rsa.engine = Engine::Busy(op);
    }

    /// One non-blocking poll shared by the three sessions: reads the result
    /// into `outbuf` and acknowledges it once the hardware is done.
    pub fn poll_results(&mut self, outbuf: &mut [u8]) -> (r: nb::Result<(), Infallible>)
        requires
            old(self).wf(),
            old(outbuf)@.len() <= REGION_BYTES,
        ensures
            final(self).wf(),
            (final(self)@, final(outbuf)@) == poll(old(self)@, old(outbuf)@),
            poll_returns(old(self)@, r),
    {
        if !self.is_idle() {
            return Err(nb::Error::WouldBlock);
        }
        self.read_out(outbuf);
        self.clear_interrupt();
        Ok(())
    }

    /// What the hardware does when it finishes a running operation: it writes
    /// `result` to the front of the result region and raises the completion
    /// signal. Nothing happens when no operation runs.
    pub fn hardware_complete(&mut self, result: &[u8])
        requires
            old(self).wf(),
            result@.len() <= REGION_BYTES,
        ensures
            final(self).wf(),
            final(self)@ == completed(old(self)@, result@),
    {
        if let Engine::Busy(_) = self.rsa.engine {
            copy_into(&mut self.rsa.z_mem, 0, result);
            self.rsa.engine = Engine::Done;
        }
    }
}

} // verus!
