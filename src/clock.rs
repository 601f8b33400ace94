use vstd::prelude::*;

verus! {

/// Peripherals whose clock gate the clock controller can open.
#[derive(Clone, Copy, Debug, PartialEq, Eq, Structural)]
pub enum PeripheralEnable {
    Rsa,
    Sha,
    Aes,
}

/// Clock gates of the crypto peripherals.
pub struct PeripheralClockControl {
    rsa: bool,
    sha: bool,
    aes: bool,
}

impl PeripheralClockControl {
    /// Whether the clock gate of `p` is open.
    pub closed spec fn spec_is_enabled(&self, p: PeripheralEnable) -> bool {
        match p {
            PeripheralEnable::Rsa => self.rsa,
            PeripheralEnable::Sha => self.sha,
            PeripheralEnable::Aes => self.aes,
        }
    }

    /// A controller with every clock gate closed.
    pub fn new() -> (r: Self)
        ensures
            forall|p: PeripheralEnable| !r.spec_is_enabled(p),
    {
        PeripheralClockControl { rsa: false, sha: false, aes: false }
    }

    /// Opens the clock gate of `p`; the other gates keep their state.
    pub fn enable(&mut self, p: PeripheralEnable)
        ensures
            final(self).spec_is_enabled(p),
            forall|q: PeripheralEnable| q != p ==> final(self).spec_is_enabled(q) == old(self).spec_is_enabled(q),
    {
        match p {
            PeripheralEnable::Rsa => self.rsa = true,
            PeripheralEnable::Sha => self.sha = true,
            PeripheralEnable::Aes => self.aes = true,
        }
    }

    /// Whether the clock gate of `p` is open.
    pub fn is_enabled(&self, p: PeripheralEnable) -> (r: bool)
        ensures
            r == self.spec_is_enabled(p),
    {
        match p {
            PeripheralEnable::Rsa => self.rsa,
            PeripheralEnable::Sha => self.sha,
            PeripheralEnable::Aes => self.aes,
        }
    }
}

} // verus!
