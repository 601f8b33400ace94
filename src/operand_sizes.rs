use vstd::prelude::*;

verus! {

/// Capacity in bytes of each operand region of the accelerator (4096 bits).
pub const REGION_BYTES: usize = 512;

/// An operand width that the accelerator supports.
pub trait RsaMode {
    /// Length in bytes of every input operand of this width.
    spec fn input_bytes() -> nat;

    /// Length in bytes of every input operand of this width.
    fn input_len() -> (r: usize)
        ensures
            r == Self::input_bytes(),
            0 < r <= REGION_BYTES,
    ;
}

/// An operand width for which the plain multiplication is supported: its
/// product, twice as long as an input, still fits a region.
pub trait Multi: RsaMode {
    /// Length in bytes of a product of two inputs of this width.
    fn output_len() -> (r: usize)
        ensures
            r == 2 * Self::input_bytes(),
            r <= REGION_BYTES,
    ;
}

/// 32-bit operands.
pub struct Op32;

impl RsaMode for Op32 {
    open spec fn input_bytes() -> nat {
        4
    }

    fn input_len() -> (r: usize) {
        4
    }
}

impl Multi for Op32 {
    fn output_len() -> (r: usize) {
        8
    }
}

/// 64-bit operands.
pub struct Op64;

impl RsaMode for Op64 {
    open spec fn input_bytes() -> nat {
        8
    }

    fn input_len() -> (r: usize) {
        8
    }
}

impl Multi for Op64 {
    fn output_len() -> (r: usize) {
        16
    }
}

/// 128-bit operands.
pub struct Op128;

impl RsaMode for Op128 {
    open spec fn input_bytes() -> nat {
        16
    }

    fn input_len() -> (r: usize) {
        16
    }
}

impl Multi for Op128 {
    fn output_len() -> (r: usize) {
        32
    }
}

/// 256-bit operands.
pub struct Op256;

impl RsaMode for Op256 {
    open spec fn input_bytes() -> nat {
        32
    }

    fn input_len() -> (r: usize) {
        32
    }
}

impl Multi for Op256 {
    fn output_len() -> (r: usize) {
        64
    }
}

/// 512-bit operands.
pub struct Op512;

impl RsaMode for Op512 {
    open spec fn input_bytes() -> nat {
        64
    }

    fn input_len() -> (r: usize) {
        64
    }
}

impl Multi for Op512 {
    fn output_len() -> (r: usize) {
        128
    }
}

/// 1024-bit operands.
pub struct Op1024;

impl RsaMode for Op1024 {
    open spec fn input_bytes() -> nat {
        128
    }

    fn input_len() -> (r: usize) {
        128
    }
}

impl Multi for Op1024 {
    fn output_len() -> (r: usize) {
        256
    }
}

/// 1536-bit operands.
pub struct Op1536;

impl RsaMode for Op1536 {
    open spec fn input_bytes() -> nat {
        192
    }

    fn input_len() -> (r: usize) {
        192
    }
}

impl Multi for Op1536 {
    fn output_len() -> (r: usize) {
        384
    }
}

/// 2048-bit operands.
pub struct Op2048;

impl RsaMode for Op2048 {
    open spec fn input_bytes() -> nat {
        256
    }

    fn input_len() -> (r: usize) {
        256
    }
}

impl Multi for Op2048 {
    fn output_len() -> (r: usize) {
        512
    }
}

/// 3072-bit operands.
pub struct Op3072;

impl RsaMode for Op3072 {
    open spec fn input_bytes() -> nat {
        384
    }

    fn input_len() -> (r: usize) {
        384
    }
}

/// 4096-bit operands.
pub struct Op4096;

impl RsaMode for Op4096 {
    open spec fn input_bytes() -> nat {
        512
    }

    fn input_len() -> (r: usize) {
        512
    }
}

} // verus!
