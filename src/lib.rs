//! Driver model for a modular-arithmetic (RSA) accelerator: operand staging,
//! the three operation sessions and their non-blocking result polling.

pub mod clock;
pub mod nb_error;
pub mod operand_sizes;
pub mod rsa;
pub mod sessions;
pub mod laws;

pub use clock::{PeripheralClockControl, PeripheralEnable};
pub use operand_sizes::{
    Multi, Op1024, Op128, Op1536, Op2048, Op256, Op3072, Op32, Op4096, Op512, Op64, RsaMode,
    REGION_BYTES,
};
pub use rsa::{Engine, Operation, Rsa, RsaPeripheral};
pub use sessions::{RsaModularExponentiation, RsaModularMultiplication, RsaMultiplication};
